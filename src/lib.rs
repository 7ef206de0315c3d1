//! Debug Communication Channel (DCC) driver: moves diagnostic text, one word at a
//! time, from the processor to a debug host, and renders failure reports onto it.

pub mod channel;
pub mod report;
pub mod writer;

pub use channel::{handshake, Handshake, Strategy, TX_BUSY};
pub use report::{render_report, FailurePayload, FaultReporter, Location, Phase};
pub use writer::{write_all, write_str, Writer};
