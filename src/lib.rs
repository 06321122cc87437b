//! Two-player rooms: validated player names and room codes, a room that
//! admits at most two players, and the decisions of room creation against a
//! persistence collaborator.

pub mod player;
pub mod player_name;
pub mod room;
pub mod room_code;
pub mod room_service;
pub mod validation;
