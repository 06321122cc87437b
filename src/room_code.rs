//! A room's identifier: at most ten characters, all alphanumeric.
use crate::validation::{all_alphanumeric, alphanumeric, check, check_text, ValidationError};
use vstd::prelude::*;

verus! {

/// The most characters a room code may hold.
pub const MAX_ROOM_CODE_LEN: usize = 10;

/// Whether `s` is acceptable as a room code.
pub open spec fn valid_room_code(s: Seq<char>) -> bool {
    check(s, MAX_ROOM_CODE_LEN as nat) is Ok
}

/// The reason given for each refusal of a room code.
pub open spec fn room_code_message(e: ValidationError) -> Seq<char> {
    match e {
        ValidationError::TooLong => "Room code exceeds the maximum length of 10 characters."@,
        ValidationError::InvalidCharacters => "Room code must contain only alphanumeric characters."@,
    }
}

/// A validated room code.
#[derive(Debug)]
pub struct RoomCode(String);

impl View for RoomCode {
    type V = Seq<char>;

    closed spec fn view(&self) -> Seq<char> {
        self.0@
    }
}

impl RoomCode {
    #[verifier::type_invariant]
    closed spec fn wf(self) -> bool {
        valid_room_code(self.0@)
    }

    /// Validates `code`: too long first, then a character that is not
    /// alphanumeric.
    pub fn create(code: String) -> (r: Result<RoomCode, ValidationError>)
        ensures
            match check(code@, MAX_ROOM_CODE_LEN as nat) {
                Ok(_) => r matches Ok(c) && c@ == code@,
                Err(e) => r == Err::<RoomCode, ValidationError>(e),
            },
    {
        match check_text(code.as_str(), MAX_ROOM_CODE_LEN) {
            Ok(()) => Ok(RoomCode(code)),
            Err(e) => Err(e),
        }
    }

    /// Validates `code` as `create` does, and on refusal gives the reason in
    /// words.
    pub fn new(code: String) -> (r: Result<Self, String>)
        ensures
            match check(code@, MAX_ROOM_CODE_LEN as nat) {
                Ok(_) => r matches Ok(c) && c@ == code@,
                Err(e) => r matches Err(m) && m@ == room_code_message(e),
            },
    {
        match Self::create(code) {
            Ok(c) => Ok(c),
            Err(e) => Err(Self::message(e)),
        }
    }

    /// The reason in words for the refusal `e`.
    pub fn message(e: ValidationError) -> (m: String)
        ensures
            m@ == room_code_message(e),
    {
        match e {
            ValidationError::TooLong => "Room code exceeds the maximum length of 10 characters.".to_owned(),
            ValidationError::InvalidCharacters => "Room code must contain only alphanumeric characters.".to_owned(),
        }
    }

    /// The code itself.
    pub fn value(&self) -> (r: &str)
        ensures
            r@ == self@,
            valid_room_code(r@),
    {
        proof {
            use_type_invariant(self);
        }
        self.0.as_str()
    }

    /// The code as an owned string.
    pub fn to_string(&self) -> (r: String)
        ensures
            r@ == self@,
    {
        self.value().to_owned()
    }
}

impl Clone for RoomCode {
    fn clone(&self) -> (r: Self)
        ensures
            r@ == self@,
    {
        proof {
            use_type_invariant(self);
        }
        RoomCode(self.0.clone())
    }
}

/// A string within the bound whose characters are all alphanumeric is
/// accepted; one over the bound is refused as too long, whatever it holds;
/// one within the bound with a character that is not alphanumeric is refused
/// for its characters.
pub proof fn lemma_room_code_rules(s: Seq<char>)
    ensures
        s.len() <= MAX_ROOM_CODE_LEN && all_alphanumeric(s) ==> check(s, MAX_ROOM_CODE_LEN as nat) is Ok,
        s.len() > MAX_ROOM_CODE_LEN ==> check(s, MAX_ROOM_CODE_LEN as nat) == Err::<(), ValidationError>(
            ValidationError::TooLong,
        ),
        s.len() <= MAX_ROOM_CODE_LEN && (exists|i: int| 0 <= i < s.len() && !alphanumeric(#[trigger] s[i]))
            ==> check(s, MAX_ROOM_CODE_LEN as nat) == Err::<(), ValidationError>(
            ValidationError::InvalidCharacters,
        ),
{
}

} // verus!
