//! Serial port access: a port handle that captures its configuration once,
//! opens and closes one driver session, and exposes best-effort reads, writes
//! and modem line queries over it.

mod bytes;
mod config;
mod driver;
mod port;

pub use config::{CharSize, FlowMode, ParityMode, PortConfig, StopBitCount};
pub use bytes::{signed_byte, unsigned_byte, vec_i8_into_u8, vec_u8_into_i8};
pub use port::{
    close_post, i32_bits, open_post, reported_count, reported_flow_code, written_count, OpenError,
    PortView, SerialPort,
};

