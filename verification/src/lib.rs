//! A verified core for a VLESS-style tunneling proxy: decoding and
//! authenticating the binary connection-request header, extracting early
//! data, and driving the duplex relay between a message transport and a
//! remote byte stream.

pub mod session;
pub mod text;
pub mod vless;
