//! PLDM service: the decisions of a PLDM-over-MCTP responder, requester and
//! firmware device.
//!
//! Every message buffer has the same flat layout:
//!
//! ```text
//! buf[0]          : MCTP message-type (0x01)
//! buf[1..]        : PLDM message (header + data)
//! ```

pub mod calls;
pub mod calls_contracts;
pub mod device_contracts;
pub mod device_laws;
pub mod error;
pub mod firmware_device;
pub mod frame;
pub mod requester;
pub mod requester_contracts;
pub mod requester_laws;
pub mod responder;
pub mod responder_contracts;
pub mod responder_laws;

pub use error::PldmServiceError;
pub use firmware_device::FirmwareDevice;
pub use requester::PldmRequester;
pub use responder::PldmResponder;
