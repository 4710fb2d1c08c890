//! The ways in which an operation of the hub token can fail.

use vstd::prelude::*;

verus! {

/// Why an operation was refused.  Every failure aborts the whole operation;
/// nothing is retried here.
#[derive(Debug, Clone, Copy, PartialEq, Eq, Structural)]
pub enum ContractError {
    /// A string is not of the form `<protocol>://<network-id>/<account>`.
    MalformedAddress,
    /// The call service gave no network address for itself.
    AddressNotFound,
    /// An incoming transfer names another network as its destination.
    WrongNetwork,
    /// An incoming transfer did not come from the registered hub.
    Unauthorized,
    /// Someone other than the owner tried to rewrite the registry.
    OnlyOwner,
    /// A revert did not come from the registered call service.
    OnlyCallService,
    /// A revert names an account of another network.
    InvalidBTPAddress,
    /// The account that is to receive tokens is not a valid account.
    InvalidToAddress,
    /// The method tag of a message is not one that this contract serves.
    InvalidMethod,
    /// A payload is not a well-formed message.
    InvalidData,
    /// The ledger refused to mint or to burn.
    MintError,
    /// A completion callback carries an identifier that was never registered.
    InvalidReply,
    /// The call service did not accept a dispatched message.
    DispatchFailed,
}

} // verus!
