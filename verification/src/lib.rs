//! Receiver core for the USRP-over-IP framing protocol: a fixed-layout
//! datagram decoder and the lifecycle state machine that turns decoded
//! frames into accumulated transmissions and flush requests.

pub mod config;
pub mod frame;
pub mod numeral;
pub mod text;
pub mod transmission;
