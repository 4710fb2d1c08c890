//! What the host hands to the contract and what the contract hands back.

use crate::data_types::{
    CrossTransfer, CrossTransferRevert, CrossTransferRevertView, CrossTransferView,
};
use crate::ledger::{Burn, BurnView, Mint, MintView};
use crate::state::{Registry, RegistryView, TokenInfo, TokenInfoView};
use vstd::prelude::*;

verus! {

/// The message that creates the contract.
#[derive(Debug, Clone, PartialEq, Eq)]
pub struct InstantiateMsg {
    /// Local address of the call service.
    pub x_call: String,
    /// Cross-chain address of the hub.
    pub hub_address: String,
}

/// The messages that the contract executes.
#[derive(Debug, Clone, PartialEq, Eq)]
pub enum ExecuteMsg {
    Setup { x_call: String, hub_address: String },
    HandleCallMessage { from: String, data: Vec<u8> },
    CrossTransfer { to: String, amount: u128, data: Vec<u8> },
    XCrossTransfer { from: String, cross_transfer_data: CrossTransfer },
    XCrossTransferRevert { from: String, cross_transfer_revert_data: CrossTransferRevert },
}

/// What an `ExecuteMsg` holds.
pub enum ExecuteMsgView {
    Setup { x_call: Seq<char>, hub_address: Seq<char> },
    HandleCallMessage { from: Seq<char>, data: Seq<u8> },
    CrossTransfer { to: Seq<char>, amount: u128, data: Seq<u8> },
    XCrossTransfer { from: Seq<char>, cross_transfer_data: CrossTransferView },
    XCrossTransferRevert { from: Seq<char>, cross_transfer_revert_data: CrossTransferRevertView },
}

impl View for ExecuteMsg {
    type V = ExecuteMsgView;

    open spec fn view(&self) -> ExecuteMsgView {
        match self {
            ExecuteMsg::Setup { x_call, hub_address } => ExecuteMsgView::Setup {
                x_call: x_call@,
                hub_address: hub_address@,
            },
            ExecuteMsg::HandleCallMessage { from, data } => ExecuteMsgView::HandleCallMessage {
                from: from@,
                data: data@,
            },
            ExecuteMsg::CrossTransfer { to, amount, data } => ExecuteMsgView::CrossTransfer {
                to: to@,
                amount: *amount,
                data: data@,
            },
            ExecuteMsg::XCrossTransfer { from, cross_transfer_data } => ExecuteMsgView::XCrossTransfer {
                from: from@,
                cross_transfer_data: cross_transfer_data@,
            },
            ExecuteMsg::XCrossTransferRevert {
                from,
                cross_transfer_revert_data,
            } => ExecuteMsgView::XCrossTransferRevert {
                from: from@,
                cross_transfer_revert_data: cross_transfer_revert_data@,
            },
        }
    }
}

/// A request to the call service: carry `data` to the address `to`, and hand
/// `rollback` back to the sender if the far end cannot take it.
#[derive(Debug, Clone, PartialEq, Eq)]
pub struct CallMessage {
    pub to: String,
    pub data: Vec<u8>,
    pub rollback: Option<Vec<u8>>,
}

/// What a `CallMessage` holds.
pub struct CallMessageView {
    pub to: Seq<char>,
    pub data: Seq<u8>,
    pub rollback: Option<Seq<u8>>,
}

impl View for CallMessage {
    type V = CallMessageView;

    open spec fn view(&self) -> CallMessageView {
        CallMessageView {
            to: self.to@,
            data: self.data@,
            rollback: match self.rollback {
                Some(bytes) => Some(bytes@),
                None => None,
            },
        }
    }
}

/// A call message on its way to the call service at `contract_addr`.  The
/// host reports how the hand-over went in a `Reply` with the id `reply_id`.
#[derive(Debug, Clone, PartialEq, Eq)]
pub struct Dispatch {
    pub contract_addr: String,
    pub message: CallMessage,
    pub reply_id: u64,
}

/// What a `Dispatch` holds.
pub struct DispatchView {
    pub contract_addr: Seq<char>,
    pub message: CallMessageView,
    pub reply_id: u64,
}

impl View for Dispatch {
    type V = DispatchView;

    open spec fn view(&self) -> DispatchView {
        DispatchView {
            contract_addr: self.contract_addr@,
            message: self.message@,
            reply_id: self.reply_id,
        }
    }
}

/// An outbound transfer that has been decided and not yet carried out: the
/// burn comes first, and only a burn that the ledger accepted releases the
/// dispatch.
#[derive(Debug, Clone, PartialEq, Eq)]
pub struct OutboundTransfer {
    pub burn: Burn,
    pub dispatch: Dispatch,
}

/// What an `OutboundTransfer` holds.
pub struct OutboundTransferView {
    pub burn: BurnView,
    pub dispatch: DispatchView,
}

impl View for OutboundTransfer {
    type V = OutboundTransferView;

    open spec fn view(&self) -> OutboundTransferView {
        OutboundTransferView { burn: self.burn@, dispatch: self.dispatch@ }
    }
}

/// A key and a value that the host records with the outcome of a call.
#[derive(Debug, Clone, PartialEq, Eq)]
pub struct Attribute {
    pub key: String,
    pub value: String,
}

/// What the host does once an operation has succeeded.
#[derive(Debug, Clone, PartialEq, Eq)]
pub struct Response {
    pub messages: Vec<Dispatch>,
    pub attributes: Vec<Attribute>,
}

/// What a `Response` holds.
pub struct ResponseView {
    pub messages: Seq<DispatchView>,
    pub attributes: Seq<(Seq<char>, Seq<char>)>,
}

impl View for Response {
    type V = ResponseView;

    open spec fn view(&self) -> ResponseView {
        ResponseView {
            messages: Seq::new(self.messages@.len(), |i: int| self.messages@[i]@),
            attributes: Seq::new(
                self.attributes@.len(),
                |i: int| (self.attributes@[i].key@, self.attributes@[i].value@),
            ),
        }
    }
}

/// The host's report on a dispatch: the id that the dispatch registered, and
/// whether the call service took the message.
#[derive(Debug, Clone, Copy, PartialEq, Eq)]
pub struct Reply {
    pub id: u64,
    pub dispatched: bool,
}

/// What the contract asks of the host in answer to an `ExecuteMsg`.
#[derive(Debug, Clone, PartialEq, Eq)]
pub enum Action {
    /// Ask the call service at `x_call` for its own cross-chain address and
    /// finish with `setup`.
    ResolveCallService { x_call: String, hub_address: String },
    /// Mint, and report the ledger's answer to `settle`.
    Mint(Mint),
    /// Burn, and report the ledger's answer to `complete_transfer`.
    Transfer(OutboundTransfer),
}

/// What an `Action` holds.
pub enum ActionView {
    ResolveCallService { x_call: Seq<char>, hub_address: Seq<char> },
    Mint(MintView),
    Transfer(OutboundTransferView),
}

impl View for Action {
    type V = ActionView;

    open spec fn view(&self) -> ActionView {
        match self {
            Action::ResolveCallService { x_call, hub_address } => ActionView::ResolveCallService {
                x_call: x_call@,
                hub_address: hub_address@,
            },
            Action::Mint(mint) => ActionView::Mint(mint@),
            Action::Transfer(transfer) => ActionView::Transfer(transfer@),
        }
    }
}

/// What the host stores when the contract is created.
#[derive(Debug, Clone, PartialEq, Eq)]
pub struct Instantiation {
    pub token: TokenInfo,
    pub registry: Registry,
}

/// What an `Instantiation` holds.
pub struct InstantiationView {
    pub token: TokenInfoView,
    pub registry: RegistryView,
}

impl View for Instantiation {
    type V = InstantiationView;

    open spec fn view(&self) -> InstantiationView {
        InstantiationView { token: self.token@, registry: self.registry@ }
    }
}

} // verus!
