//! Decoding of one-time-password enrollment URIs from a backup stream, and
//! generation of time-based one-time-password (TOTP) codes for the decoded
//! accounts.


pub mod text;
pub mod digits;
pub mod uri;
pub mod totp;
pub mod accounts;
pub mod backup;
pub mod table;

pub use accounts::{Account, CodeError};
pub use uri::{DecodeError, Field};
pub use backup::parse_backup;
pub use table::pretty_display;
