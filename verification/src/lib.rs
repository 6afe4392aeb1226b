//! A line-oriented serial status panel: bytes arriving over a serial link are
//! assembled into newline-delimited text frames under a fixed 32-byte budget,
//! decoded as UTF-8, trimmed, and handed to a display; on a fixed period a
//! liveness indicator toggles and a status query is transmitted. Interrupt
//! dispatch and shared-resource exclusion are modelled and proved in
//! [`dispatch`].

pub mod dispatch;
pub mod framing;
pub mod periodic;
pub mod receive;
pub mod system;
pub mod text;
