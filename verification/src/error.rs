//! The error type of the PLDM services.

use vstd::prelude::*;

verus! {

/// Everything that can end a PLDM service.
#[derive(Debug, PartialEq, Eq)]
pub enum PldmServiceError {
    /// The MCTP transport failed; the text describes how.
    Mctp(String),
    /// The PLDM command interface rejected a message; the text describes why.
    MsgHandler(String),
    /// An IPC channel failed.
    Ipc,
    /// A length does not fit the buffer, or the arithmetic on it.
    Overflow,
    /// A message is too short to hold what it must hold.
    InvalidLength,
}

} // verus!
