//! Bridge between an application and locally installed receipt printers.
//!
//! Pre-rendered ESC/POS bytes are buffered by a byte-sink adapter and handed
//! over in one piece when the adapter is flushed. The library decides what is
//! submitted and what is reported; talking to the operating system's spooler
//! is left to the caller, who reports back what the spooler answered.

pub mod commands;
pub mod driver;
pub mod error;
pub mod payload;
