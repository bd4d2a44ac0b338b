//! The decision logic of a desktop toast notifier: what markup to send, which
//! sound to play, where the menu shortcut lives and in which order the
//! platform is asked to act.
//!
//! The crate shows no toast, plays no sound and writes no file itself: a
//! host carries out the effects it asks for and reports back what happened.
//! The one thing it asks the operating system directly is where the user's
//! directory for local data lies, to find the menu shortcut's path.

pub mod cli;
pub mod error;
pub mod identity;
pub mod model;
pub mod paths;
pub mod platform;
pub mod registration;
pub mod script;
pub mod sound;
pub mod text;
pub mod toast;
