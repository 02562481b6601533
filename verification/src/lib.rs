//! Keyboard automation for Windows: keys and their codes, typing characters as
//! keystrokes, a low-level keyboard hook's decisions, and the logic of a
//! clipboard-driven chat assistant built on them.

pub mod assistant;
pub mod char_sender;
pub mod handler;
pub mod icon;
pub mod image_url;
pub mod key;
pub mod typer;

pub use char_sender::CharSender;
pub use key::{Key, VirtualKey};
