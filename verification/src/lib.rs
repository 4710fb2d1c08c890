//! Transfer orchestration for a cross-chain hub token.
//!
//! The crate moves a fungible balance between a local ledger and a remote hub
//! by exchanging length-prefixed binary messages through a call service.  It
//! holds the message codec, the cross-chain address parser, the registry of
//! trusted peers and the decisions of every transfer operation.  Storage, the
//! ledger and the call service itself belong to the host, which carries out
//! the instructions that the functions here return.

pub mod constants;
pub mod contract;
pub mod data_types;
pub mod decimal;
pub mod error;
pub mod laws;
pub mod ledger;
pub mod msg;
pub mod network_address;
pub mod rlp;
pub mod rlp_codec;
pub mod state;
pub mod text;
