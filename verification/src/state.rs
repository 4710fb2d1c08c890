//! What the contract keeps between calls: the registry of its peers, and the
//! description of the token it stands for.

use crate::error::ContractError;
use crate::network_address::has_no_slash;
use vstd::prelude::*;

verus! {

/// The peers of this contract.  It is written by `setup` and read by every
/// transfer; the host persists it between calls.
#[derive(Debug, Clone, PartialEq, Eq)]
pub struct Registry {
    /// Network id of this chain, as the call service knows it.
    pub network_id: String,
    /// Network id of the chain of the hub.
    pub hub_network_id: String,
    /// Account of the hub on its chain.
    pub hub_account: String,
    /// Local address of the call service.
    pub call_service_address: String,
    /// Cross-chain address of the call service, under which reverts arrive.
    pub call_service_network_address: String,
    /// Who set the registry up.
    pub owner: String,
}

/// What a `Registry` holds.
pub struct RegistryView {
    pub network_id: Seq<char>,
    pub hub_network_id: Seq<char>,
    pub hub_account: Seq<char>,
    pub call_service_address: Seq<char>,
    pub call_service_network_address: Seq<char>,
    pub owner: Seq<char>,
}

impl View for Registry {
    type V = RegistryView;

    open spec fn view(&self) -> RegistryView {
        RegistryView {
            network_id: self.network_id@,
            hub_network_id: self.hub_network_id@,
            hub_account: self.hub_account@,
            call_service_address: self.call_service_address@,
            call_service_network_address: self.call_service_network_address@,
            owner: self.owner@,
        }
    }
}

impl RegistryView {
    /// True for a registry whose two network ids can stand in an address:
    /// neither is empty and neither holds a slash.  `setup` gives no other.
    pub open spec fn well_formed(self) -> bool {
        &&& self.network_id.len() > 0
        &&& has_no_slash(self.network_id)
        &&& self.hub_network_id.len() > 0
        &&& has_no_slash(self.hub_network_id)
    }
}

/// What the host found in storage, as the contracts speak of it.
pub open spec fn stored_view(stored: Option<Registry>) -> Option<RegistryView> {
    match stored {
        Some(registry) => Some(registry@),
        None => None,
    }
}

/// The registry that a transfer works with: the one that is stored.  Where
/// none is stored, the peers are unknown and the operation fails with
/// `AddressNotFound`.
pub fn stored_registry(stored: Option<Registry>) -> (r: Result<Registry, ContractError>)
    ensures
        match stored {
            Some(registry) => r == Ok::<Registry, ContractError>(registry),
            None => r == Err::<Registry, ContractError>(ContractError::AddressNotFound),
        },
{
    match stored {
        Some(registry) => Ok(registry),
        None => Err(ContractError::AddressNotFound),
    }
}

/// The description of the token, as the ledger stores it.
#[derive(Debug, Clone, PartialEq, Eq)]
pub struct TokenInfo {
    pub name: String,
    pub symbol: String,
    pub decimals: u8,
    pub total_supply: u128,
    /// The only account that may mint.
    pub minter: String,
    /// The most that may ever be minted, if there is a limit.
    pub cap: Option<u128>,
}

/// What a `TokenInfo` holds.
pub struct TokenInfoView {
    pub name: Seq<char>,
    pub symbol: Seq<char>,
    pub decimals: u8,
    pub total_supply: u128,
    pub minter: Seq<char>,
    pub cap: Option<u128>,
}

impl View for TokenInfo {
    type V = TokenInfoView;

    open spec fn view(&self) -> TokenInfoView {
        TokenInfoView {
            name: self.name@,
            symbol: self.symbol@,
            decimals: self.decimals,
            total_supply: self.total_supply,
            minter: self.minter@,
            cap: self.cap,
        }
    }
}

} // verus!
