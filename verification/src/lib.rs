//! The decisions of a small note editor: where a note is kept on disk, and
//! what the Save, Load and Clear buttons do to the editor's state.
//!
//! The library performs no file or dialog work itself and asks the platform
//! nothing. It says which work is due next and takes the outcome back as an
//! event; the user's documents directory is handed to it.

pub mod editor;
pub mod laws;
pub mod paths;
