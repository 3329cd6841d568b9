//! Character sheet and play-session logic for a tabletop role-playing
//! companion: the character and status records, the rules that change a
//! status during play, and the key-driven session state machine.

pub mod types;
pub mod error;
pub mod text;
pub mod session;
pub mod view;
