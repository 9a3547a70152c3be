//! Reading a secret line of text (a password) without echo, and holding it in
//! buffers that wipe their memory when dropped.
//!
//! The library holds the logic: how a raw line is checked and trimmed, how
//! the terminal's echo flags are recomputed, the order in which a hidden read
//! hides echo, reads, restores the mode and reports, and the containers that
//! zero their bytes on drop. The calls into the operating system stay with
//! the caller, which performs the actions that a [`hidden_read::HiddenRead`]
//! asks for.

pub mod error;
pub mod hidden_read;
pub mod line;
pub mod reader;
pub mod secret;
pub mod terminal;

pub use error::PasswordError;
pub use hidden_read::{HiddenRead, HiddenReadAction, HiddenReadEvent, ReadEnd};
pub use line::{fix_line_issues, fix_new_line};
pub use reader::{
    password_from_line, print_writer, prompt_password_from_bufread, read_password_from_bufread,
    read_secret_line,
};
pub use secret::{zero_bytes, SafeString, SafeVec, ZeroOnDrop};
pub use terminal::{hidden_console_mode, hidden_local_flags};
