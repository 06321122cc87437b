//! Validation shared by the value objects: a bound on the length in
//! characters, then every character alphanumeric.
use vstd::prelude::*;

verus! {

/// Why a raw string was refused.
#[derive(Clone, Copy, Debug, PartialEq, Eq, Structural)]
pub enum ValidationError {
    /// More characters than the bound allows.
    TooLong,
    /// Some character is not alphanumeric.
    InvalidCharacters,
}

/// Whether a character is alphanumeric in Unicode's sense.
pub uninterp spec fn alphanumeric(c: char) -> bool;

/// Relies on `char::is_alphanumeric`: whether `c` is alphabetic or numeric,
/// which depends on the character alone.
#[verifier::external_body]
fn is_alphanumeric(c: char) -> (r: bool)
    ensures
        r == alphanumeric(c),
{
    c.is_alphanumeric()
}

/// Every character of `s` is alphanumeric.
pub open spec fn all_alphanumeric(s: Seq<char>) -> bool {
    forall|i: int| 0 <= i < s.len() ==> alphanumeric(#[trigger] s[i])
}

/// The verdict on a text of `len` characters under the bound `max`, where
/// `all_alnum` tells whether all its characters are alphanumeric. The length
/// is judged first.
pub open spec fn verdict(len: nat, max: nat, all_alnum: bool) -> Result<(), ValidationError> {
    if len > max {
        Err(ValidationError::TooLong)
    } else if !all_alnum {
        Err(ValidationError::InvalidCharacters)
    } else {
        Ok(())
    }
}

/// The verdict on the text `s` under the bound `max`.
pub open spec fn check(s: Seq<char>, max: nat) -> Result<(), ValidationError> {
    verdict(s.len(), max, all_alphanumeric(s))
}

/// Decides from a text's length and character class, the length first.
pub fn classify(len: usize, max: usize, all_alnum: bool) -> (r: Result<(), ValidationError>)
    ensures
        r == verdict(len as nat, max as nat, all_alnum),
{
    if len > max {
        Err(ValidationError::TooLong)
    } else if !all_alnum {
        Err(ValidationError::InvalidCharacters)
    } else {
        Ok(())
    }
}

/// Whether every character of `s` is alphanumeric.
pub fn all_alphanumeric_chars(s: &str) -> (r: bool)
    ensures
        r == all_alphanumeric(s@),
{
    let n: usize = s.unicode_len();
    let mut i: usize = 0;
    while i < n
        invariant
            n == s@.len(),
            i <= n,
            forall|j: int| 0 <= j < i ==> alphanumeric(#[trigger] s@[j]),
        decreases n - i,
    {
        let c = s.get_char(i);
        if !is_alphanumeric(c) {
            return false;
        }
        i = i + 1;
    }
    true
}

/// Checks `s` against the bound `max` on its length in characters, then
/// against the character class. The characters are read only when the length
/// is within the bound.
pub fn check_text(s: &str, max: usize) -> (r: Result<(), ValidationError>)
    ensures
        r == check(s@, max as nat),
{
    let n: usize = s.unicode_len();
    let all_alnum = if n <= max {
        all_alphanumeric_chars(s)
    } else {
        false
    };
    classify(n, max, all_alnum)
}

/// The empty string passes every bound.
pub proof fn lemma_empty_accepted(max: nat)
    ensures
        check(Seq::<char>::empty(), max) is Ok,
{
}

} // verus!
