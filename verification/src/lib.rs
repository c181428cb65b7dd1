//! The bus discipline of an SD card file facade, without the I/O.
//!
//! A card session reads and writes files in the root directory of the first
//! volume of an SD/MMC card. Every operation of the session takes the bus for
//! itself, makes its calls on the filesystem engine through that one
//! acquisition, and gives the bus back. This crate holds the decisions of that
//! discipline: which call comes next and with which arguments, when an
//! operation ends, and what it reports. The transfers themselves belong to a
//! driver, which performs each call that a transaction names and hands back
//! how it went.

pub mod clock;
pub mod error;
pub mod laws;
pub mod plan;
pub mod session;
pub mod transaction;

pub use crate::clock::SdMmcClock;
pub use crate::error::SdCardError;
pub use crate::plan::Call;
pub use crate::plan::Operation;
pub use crate::plan::MAX_DIRS;
pub use crate::plan::MAX_FILES;
pub use crate::session::SdCard;
pub use crate::transaction::Held;
pub use crate::transaction::Next;
pub use crate::transaction::Pending;
pub use crate::transaction::Reply;
