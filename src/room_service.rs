//! Room creation against a persistence collaborator. The collaborator's
//! calls may suspend, so the service is a set of decisions: each takes what
//! the repository answered and says what comes next. The caller performs the
//! repository calls in between.
//!
//! Creating a room with code `c`:
//! 1. ask the repository whether `c` exists, and hand the answer to
//!    `after_exists`;
//! 2. on `CreateRoomStep::Save(room)`, ask the repository to save `room`, and
//!    hand that answer to `after_save`.
use crate::room::Room;
use crate::room_code::RoomCode;
use vstd::prelude::*;

verus! {

/// What follows the repository's answer on whether a code exists.
#[derive(Debug)]
pub enum CreateRoomStep {
    /// Ask the repository to save this room.
    Save(Room),
    /// Creation is over, with this outcome.
    Finished(Option<Room>),
}

/// Whether a code counts as taken, given the repository's answer: a failed
/// check counts as not taken.
pub open spec fn taken<E>(answer: Result<bool, E>) -> bool {
    answer matches Ok(true)
}

/// `step` is what follows the answer `answer` on whether `code` exists: no
/// room when the code is taken, else a save of an empty room with that code.
pub open spec fn step_after_exists<E>(code: Seq<char>, answer: Result<bool, E>, step: CreateRoomStep) -> bool {
    if taken(answer) {
        step == CreateRoomStep::Finished(None)
    } else {
        step matches CreateRoomStep::Save(room) && room.is_new_for(code) && room.wf()
    }
}

/// The outcome once the repository answered `answer` to the save of `room`.
pub open spec fn outcome_after_save<E>(room: Room, answer: Result<(), E>) -> Option<Room> {
    match answer {
        Ok(_) => Some(room),
        Err(_) => None,
    }
}

/// Creates rooms through the repository `repository`.
pub struct RoomService<R> {
    pub repository: R,
}

impl<R> RoomService<R> {
    /// A service over `repository`.
    pub fn new(repository: R) -> (r: Self)
        ensures
            r.repository == repository,
    {
        RoomService { repository }
    }

    /// Whether a room exists, given the repository's answer for its code;
    /// a failed check counts as absent.
    pub fn exists_from_answer<E>(&self, answer: Result<bool, E>) -> (r: bool)
        ensures
            r == taken(answer),
    {
        match answer {
            Ok(found) => found,
            Err(_) => false,
        }
    }

    /// What follows once the repository answered `answer` on whether
    /// `room_code` exists.
    pub fn after_exists<E>(&self, room_code: &RoomCode, answer: Result<bool, E>) -> (r: CreateRoomStep)
        ensures
            step_after_exists(room_code@, answer, r),
    {
        if self.exists_from_answer(answer) {
            CreateRoomStep::Finished(None)
        } else {
            CreateRoomStep::Save(Room::new(room_code.clone()))
        }
    }

    /// The outcome once the repository answered `answer` to the save of
    /// `room`: the room when it was saved, none otherwise.
    pub fn after_save<E>(&self, room: Room, answer: Result<(), E>) -> (r: Option<Room>)
        ensures
            r == outcome_after_save(room, answer),
    {
        match answer {
            Ok(_) => Some(room),
            Err(_) => None,
        }
    }
}

/// Creating a room with code `code`: when the repository reports the code
/// taken, no room comes and nothing is saved; when it reports it free, an
/// empty room with that code is to be saved, and it is the outcome exactly
/// when the save succeeds.
pub proof fn lemma_create_room_outcomes<E>(
    code: Seq<char>,
    exists_answer: Result<bool, E>,
    step: CreateRoomStep,
    save_answer: Result<(), E>,
)
    requires
        step_after_exists(code, exists_answer, step),
    ensures
        exists_answer matches Ok(true) ==> step == CreateRoomStep::Finished(None),
        exists_answer matches Ok(false) ==> (step matches CreateRoomStep::Save(room) && {
            &&& room.room_code@ == code
            &&& room.players@.len() == 0
            &&& (save_answer is Ok ==> outcome_after_save(room, save_answer) == Some(room))
            &&& (save_answer is Err ==> outcome_after_save(room, save_answer) is None)
        }),
{
}

} // verus!
