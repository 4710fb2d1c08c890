//! Instructions for the ledger, and what a ledger that follows them holds.
//!
//! The ledger belongs to the host.  The contract decides what is minted and
//! burned; the host carries the instruction out and reports whether the
//! ledger accepted it.

use crate::error::ContractError;
use vstd::prelude::*;

verus! {

/// An instruction to create `amount` tokens on the account `recipient`.
#[derive(Debug, Clone, PartialEq, Eq)]
pub struct Mint {
    pub recipient: String,
    pub amount: u128,
}

/// An instruction to destroy `amount` tokens of the account `owner`.
#[derive(Debug, Clone, PartialEq, Eq)]
pub struct Burn {
    pub owner: String,
    pub amount: u128,
}

/// What a `Mint` holds.
pub struct MintView {
    pub recipient: Seq<char>,
    pub amount: u128,
}

/// What a `Burn` holds.
pub struct BurnView {
    pub owner: Seq<char>,
    pub amount: u128,
}

impl View for Mint {
    type V = MintView;

    open spec fn view(&self) -> MintView {
        MintView { recipient: self.recipient@, amount: self.amount }
    }
}

impl View for Burn {
    type V = BurnView;

    open spec fn view(&self) -> BurnView {
        BurnView { owner: self.owner@, amount: self.amount }
    }
}

/// The balance of `account`; an account that the ledger does not know holds
/// nothing.
pub open spec fn balance_of(balances: Map<Seq<char>, nat>, account: Seq<char>) -> nat {
    if balances.dom().contains(account) {
        balances[account]
    } else {
        0
    }
}

/// The balances after a mint.
pub open spec fn minted(balances: Map<Seq<char>, nat>, mint: MintView) -> Map<Seq<char>, nat> {
    balances.insert(mint.recipient, (balance_of(balances, mint.recipient) + mint.amount) as nat)
}

/// True when the owner holds enough for a burn.
pub open spec fn can_burn(balances: Map<Seq<char>, nat>, burn: BurnView) -> bool {
    burn.amount <= balance_of(balances, burn.owner)
}

/// The balances after a burn that the owner can afford.
pub open spec fn burned(balances: Map<Seq<char>, nat>, burn: BurnView) -> Map<Seq<char>, nat> {
    balances.insert(burn.owner, (balance_of(balances, burn.owner) - burn.amount) as nat)
}

/// Turns the ledger's answer to a mint or a burn into the outcome of the
/// operation: a refusal fails it with `MintError`.
pub fn settle(accepted: bool) -> (r: Result<(), ContractError>)
    ensures
        r == if accepted {
            Ok::<(), ContractError>(())
        } else {
            Err::<(), ContractError>(ContractError::MintError)
        },
{
    if accepted {
        Ok(())
    } else {
        Err(ContractError::MintError)
    }
}

} // verus!
