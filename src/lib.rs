//! Nonblocking RFCOMM connection establishment: discovery of the serial-port
//! channel over SDP, parsing of SDP service records, and the connect handshake,
//! each written as a state machine that names the native call to make next and
//! decides from its outcome.
pub mod addr;
pub mod error;
pub mod sdp;
pub mod sdp_data;
pub mod socket;

pub use addr::{BtAddr, BtDevice, BtProtocol};
pub use error::BtError;
