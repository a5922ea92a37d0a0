//! Document session and save coordination for a markdown editor.
//!
//! The crate tracks which file is open and the fingerprint of its last
//! synchronised content, decides what a save request has to do, and assembles
//! the HTML page shown by the live preview.
pub mod identity;
pub mod keys;
pub mod preview;
pub mod save;
pub mod session;
