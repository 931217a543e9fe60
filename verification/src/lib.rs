//! Bridge from a pull-based, suspendable byte producer to a poll-based
//! streaming reader.
//!
//! A [`source::Fancy`] data source produces byte chunks on demand through an
//! operation that suspends at least once before completing.  A
//! [`reader::FancyReader`] adapter drives such an operation to completion
//! across repeated poll calls, delivering exactly the bytes each call asks
//! for into a caller-supplied [`buffer::OutputBuffer`].

pub mod buffer;
pub mod poll;
pub mod reader;
pub mod source;

pub use buffer::OutputBuffer;
pub use poll::{Poll, ReadError};
pub use reader::FancyReader;
pub use source::{Fancy, PendingOperation, FILL_BYTE};
