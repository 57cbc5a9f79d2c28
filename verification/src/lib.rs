//! Remote-session engine for a terminal file manager over a secure shell
//! transport: connection and channel lifecycle, directory-listing assembly,
//! chunked file transfer, the interactive shell forwarder's state machine,
//! and the pure state of the surrounding user interface (file browser,
//! modal text editor, saved-connection book-keeping).
//!
//! Everything here is plain logic on plain values; the I/O that feeds it
//! (network, terminal, local files) lives outside the library.

pub mod app;
pub mod browser;
pub mod connections;
pub mod editor;
pub mod errors;
pub mod forward;
pub mod keys;
pub mod listing;
pub mod selector;
pub mod session;
pub mod state;
pub mod text;
pub mod transfer;
