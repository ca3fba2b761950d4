//! Background-task coordination for a kiosk that links smartcards to user
//! accounts: single-slot request/response pairs between a per-frame UI loop
//! and its workers, the screen state machine those pairs drive, and the
//! request building for the user directory.

pub mod api;
pub mod apikey;
pub mod client;
pub mod decisions;
pub mod duplicate;
pub mod errors;
pub mod hold;
pub mod notification;
pub mod protocol;
pub mod qr;
pub mod reader;
pub mod state;
pub mod tasks;
pub mod text;
pub mod timestamp;
pub mod training;
pub mod user;
pub mod workers;
