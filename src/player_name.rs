//! A player's display name: at most thirty characters, all alphanumeric.
use crate::validation::{all_alphanumeric, alphanumeric, check, check_text, ValidationError};
use vstd::prelude::*;

verus! {

/// The most characters a player name may hold.
pub const MAX_PLAYER_NAME_LEN: usize = 30;

/// Whether `s` is acceptable as a player name.
pub open spec fn valid_player_name(s: Seq<char>) -> bool {
    check(s, MAX_PLAYER_NAME_LEN as nat) is Ok
}

/// The reason given for each refusal of a player name.
pub open spec fn player_name_message(e: ValidationError) -> Seq<char> {
    match e {
        ValidationError::TooLong => "Player name exceeds the maximum length of 30 characters."@,
        ValidationError::InvalidCharacters => "Player name must contain only alphanumeric characters."@,
    }
}

/// A validated player name.
#[derive(Debug)]
pub struct PlayerName(String);

impl View for PlayerName {
    type V = Seq<char>;

    closed spec fn view(&self) -> Seq<char> {
        self.0@
    }
}

impl PlayerName {
    #[verifier::type_invariant]
    closed spec fn wf(self) -> bool {
        valid_player_name(self.0@)
    }

    /// Validates `name`: too long first, then a character that is not
    /// alphanumeric.
    pub fn create(name: String) -> (r: Result<PlayerName, ValidationError>)
        ensures
            match check(name@, MAX_PLAYER_NAME_LEN as nat) {
                Ok(_) => r matches Ok(p) && p@ == name@,
                Err(e) => r == Err::<PlayerName, ValidationError>(e),
            },
    {
        match check_text(name.as_str(), MAX_PLAYER_NAME_LEN) {
            Ok(()) => Ok(PlayerName(name)),
            Err(e) => Err(e),
        }
    }

    /// Validates `name` as `create` does, and on refusal gives the reason in
    /// words.
    pub fn new(name: String) -> (r: Result<Self, String>)
        ensures
            match check(name@, MAX_PLAYER_NAME_LEN as nat) {
                Ok(_) => r matches Ok(p) && p@ == name@,
                Err(e) => r matches Err(m) && m@ == player_name_message(e),
            },
    {
        match Self::create(name) {
            Ok(p) => Ok(p),
            Err(e) => Err(Self::message(e)),
        }
    }

    /// The reason in words for the refusal `e`.
    pub fn message(e: ValidationError) -> (m: String)
        ensures
            m@ == player_name_message(e),
    {
        match e {
            ValidationError::TooLong => "Player name exceeds the maximum length of 30 characters.".to_owned(),
            ValidationError::InvalidCharacters => "Player name must contain only alphanumeric characters.".to_owned(),
        }
    }

    /// The name itself.
    pub fn value(&self) -> (r: &str)
        ensures
            r@ == self@,
            valid_player_name(r@),
    {
        proof {
            use_type_invariant(self);
        }
        self.0.as_str()
    }

    /// The name as an owned string.
    pub fn to_string(&self) -> (r: String)
        ensures
            r@ == self@,
    {
        self.value().to_owned()
    }
}

impl Clone for PlayerName {
    fn clone(&self) -> (r: Self)
        ensures
            r@ == self@,
    {
        proof {
            use_type_invariant(self);
        }
        PlayerName(self.0.clone())
    }
}

/// A string within the bound whose characters are all alphanumeric is
/// accepted; one over the bound is refused as too long, whatever it holds;
/// one within the bound with a character that is not alphanumeric is refused
/// for its characters.
pub proof fn lemma_player_name_rules(s: Seq<char>)
    ensures
        s.len() <= MAX_PLAYER_NAME_LEN && all_alphanumeric(s) ==> check(s, MAX_PLAYER_NAME_LEN as nat) is Ok,
        s.len() > MAX_PLAYER_NAME_LEN ==> check(s, MAX_PLAYER_NAME_LEN as nat) == Err::<(), ValidationError>(
            ValidationError::TooLong,
        ),
        s.len() <= MAX_PLAYER_NAME_LEN && (exists|i: int| 0 <= i < s.len() && !alphanumeric(#[trigger] s[i]))
            ==> check(s, MAX_PLAYER_NAME_LEN as nat) == Err::<(), ValidationError>(
            ValidationError::InvalidCharacters,
        ),
{
}

} // verus!
