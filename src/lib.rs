//! Tunnels and proxies through remote agents: the SOCKS5 handshake, the
//! relay between two byte streams, the table of live sessions and the
//! decisions of each session's loop, plus an MPEG transport stream muxer for
//! the remote screen.

pub mod address;
pub mod command;
pub mod error;
pub mod frame;
pub mod registry;
pub mod session;
pub mod socks5;
pub mod splice;
pub mod ts_mux;
