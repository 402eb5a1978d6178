//! Room sensing from WiFi channel state.
//!
//! A room is enrolled by capturing a sequence of anchors ([`enroll`], [`capture`]), specialists are
//! trained on them and their standing is told ([`room`]), and a live readout follows the room
//! ([`watch`], [`window`]). How each command ends is decided in [`ending`]. A temporal head attends
//! over frames with a sparse kernel ([`sparse`], [`kernel`]).
//!
//! The modules decide and write text. Sockets, files, sleeping and inference belong to the program
//! around them, which performs what a module asks for and hands back what came of it.

pub mod args;
pub mod capture;
pub mod clock;
pub mod ending;
pub mod enroll;
pub mod enroll_laws;
pub mod error;
pub mod head_laws;
pub mod kernel;
pub mod room;
pub mod room_laws;
pub mod sparse;
pub mod text;
pub mod watch;
pub mod window;
