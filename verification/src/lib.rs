//! Host-side driver for pushing a kernel image to a bootloader over a serial
//! line: token synchronisation, acknowledgment-gated header exchange, chunked
//! payload transmission, and a terminal mirror mode.
//!
//! The protocol state machine and all byte-level framing live here as verified
//! code; the physical serial port and the command line are handled by the
//! surrounding binary, which feeds events into the state machine.

pub mod arch;
pub mod codec;
pub mod driver;
pub mod mirror;
pub mod session;

pub use arch::Arch;
pub use arch::arch_from_arg;
pub use arch::arch_from_filename;
pub use arch::str_contains;
pub use codec::chunk_at;
pub use codec::chunk_count_exec;
pub use codec::encode_header;
pub use codec::is_ack;
pub use codec::token_bytes;
pub use driver::Action;
pub use driver::Driver;
pub use driver::Event;
pub use driver::Phase;
pub use driver::State;
pub use driver::TIMEOUT_MILLIS;
pub use driver::TransferError;
pub use mirror::MirrorEvent;
pub use mirror::mirror_collect;
pub use mirror::mirror_forward;
pub use session::ReadOutcome;
pub use session::SessionTrace;
pub use session::run_simulated;
