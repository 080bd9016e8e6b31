//! Network-interface selection and Ethernet/IPv4 frame decoding for a
//! bounded packet-capture session.
pub mod dotted;
pub mod frame;
pub mod error;
pub mod interface;
pub mod session;
