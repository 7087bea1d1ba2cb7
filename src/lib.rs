//! Framed binary protocol and lifecycle state machine for battery test benches
//! driven over a serial link.
pub mod command;
pub mod codec;
pub mod clock;
pub mod bench;
pub mod session;
pub mod export;
pub mod paths;
