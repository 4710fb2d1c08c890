//! The decisions of the hub token contract.
//!
//! Every function here takes what the host has read and returns what the
//! host is to do: a registry to store, a mint or a burn for the ledger, a
//! message for the call service.  Nothing is stored, minted, burned or sent
//! from here, so an operation that fails leaves nothing behind.

use crate::constants::{PROTOCOL, REPLY_MSG_SUCCESS};
use crate::data_types::{
    decode, spec_decode, spec_encode_cross_transfer, spec_encode_cross_transfer_revert,
    CrossTransfer, CrossTransferRevert, CrossTransferRevertView, CrossTransferView, Message,
    MessageView,
};
use crate::error::ContractError;
use crate::ledger::{settle, Burn, BurnView, Mint, MintView};
use crate::msg::{
    Action, ActionView, Attribute, CallMessage, CallMessageView, Dispatch, DispatchView,
    ExecuteMsg, ExecuteMsgView, InstantiateMsg, Instantiation, OutboundTransfer,
    OutboundTransferView, Reply, Response, ResponseView,
};
use crate::network_address::{
    format_address, lemma_format_of_parse, parse_network_address, parse_protocol_address,
    spec_format_address, spec_parse_network_address, spec_parse_protocol_address,
};
use crate::state::{
    stored_registry, stored_view, Registry, RegistryView, TokenInfo, TokenInfoView,
};
use crate::text::{bytes_contents, bytes_from_vec, bytes_to_vec, same_text};
use vstd::prelude::*;
use vstd::string::*;

verus! {

/// The cross-chain address of the hub.
pub open spec fn hub_address_of(registry: RegistryView) -> Seq<char> {
    spec_format_address(PROTOCOL@, registry.hub_network_id, registry.hub_account)
}

/// The cross-chain address of a local account.
pub open spec fn local_address_of(registry: RegistryView, account: Seq<char>) -> Seq<char> {
    spec_format_address(PROTOCOL@, registry.network_id, account)
}

/// The owner of the stored registry, as the contracts speak of it.
pub open spec fn owner_view(present_owner: Option<&str>) -> Option<Seq<char>> {
    match present_owner {
        Some(owner) => Some(owner@),
        None => None,
    }
}

/// True when `sender` may write the registry: no registry is stored yet, or
/// the sender owns the one that is.
pub open spec fn may_write_registry(present_owner: Option<Seq<char>>, sender: Seq<char>) -> bool {
    match present_owner {
        Some(owner) => owner == sender,
        None => true,
    }
}

/// The registry that `setup` writes.  Only the owner of the stored registry
/// may write another; the first registry makes its writer the owner.
pub open spec fn spec_setup(
    present_owner: Option<Seq<char>>,
    sender: Seq<char>,
    x_call: Seq<char>,
    hub_address: Seq<char>,
    call_service_network_address: Seq<char>,
) -> Result<RegistryView, ContractError> {
    if !may_write_registry(present_owner, sender) {
        Err(ContractError::OnlyOwner)
    } else if call_service_network_address.len() == 0 {
        Err(ContractError::AddressNotFound)
    } else {
        match spec_parse_network_address(call_service_network_address) {
            None => Err(ContractError::MalformedAddress),
            Some((network_id, _)) => match spec_parse_protocol_address(hub_address) {
                None => Err(ContractError::MalformedAddress),
                Some((hub_network_id, hub_account)) => Ok(
                    RegistryView {
                        network_id,
                        hub_network_id,
                        hub_account,
                        call_service_address: x_call,
                        call_service_network_address,
                        owner: sender,
                    },
                ),
            },
        }
    }
}

/// The token that `instantiate` describes: no supply yet, and the contract
/// itself as the only minter.
pub open spec fn spec_token_info(contract_address: Seq<char>) -> TokenInfoView {
    TokenInfoView {
        name: "HubToken"@,
        symbol: "HUBT"@,
        decimals: 18,
        total_supply: 0,
        minter: contract_address,
        cap: None,
    }
}

/// The mint that credits the account of `address`, provided that `address`
/// names an account of this network.  `other_network` is the error for an
/// address of another network.
pub open spec fn spec_credit(
    registry: RegistryView,
    address: Seq<char>,
    amount: u128,
    other_network: ContractError,
) -> Result<MintView, ContractError> {
    match spec_parse_protocol_address(address) {
        None => Err(ContractError::MalformedAddress),
        Some((network_id, account)) => if network_id != registry.network_id {
            Err(other_network)
        } else if account.len() == 0 {
            Err(ContractError::InvalidToAddress)
        } else {
            Ok(MintView { recipient: account, amount })
        },
    }
}

/// The mint that answers an incoming transfer: the sender must be the hub,
/// the destination an account of this network.
pub open spec fn spec_x_cross_transfer(
    registry: RegistryView,
    from: Seq<char>,
    transfer: CrossTransferView,
) -> Result<MintView, ContractError> {
    if from != hub_address_of(registry) {
        Err(ContractError::Unauthorized)
    } else {
        spec_credit(registry, transfer.to, transfer.value, ContractError::WrongNetwork)
    }
}

/// The mint that answers an incoming revert: the sender must be the call
/// service, the account to restore one of this network.
pub open spec fn spec_x_cross_transfer_revert(
    registry: RegistryView,
    from: Seq<char>,
    revert: CrossTransferRevertView,
) -> Result<MintView, ContractError> {
    if from != registry.call_service_network_address {
        Err(ContractError::OnlyCallService)
    } else {
        spec_credit(registry, revert.from, revert.value, ContractError::InvalidBTPAddress)
    }
}

/// The mint that answers a payload from the call service.
pub open spec fn spec_handle_call_message(
    registry: RegistryView,
    from: Seq<char>,
    data: Seq<u8>,
) -> Result<MintView, ContractError> {
    match spec_decode(data) {
        Err(e) => Err(e),
        Ok(MessageView::CrossTransfer(transfer)) => spec_x_cross_transfer(registry, from, transfer),
        Ok(MessageView::CrossTransferRevert(revert)) => spec_x_cross_transfer_revert(
            registry,
            from,
            revert,
        ),
    }
}

/// The transfer message that leaves for the hub.
pub open spec fn outbound_message(
    registry: RegistryView,
    sender: Seq<char>,
    to: Seq<char>,
    amount: u128,
    data: Seq<u8>,
) -> CrossTransferView {
    CrossTransferView { from: local_address_of(registry, sender), to, value: amount, data }
}

/// The revert that the call service hands back if the hub cannot take the
/// transfer.
pub open spec fn rollback_message(
    registry: RegistryView,
    sender: Seq<char>,
    amount: u128,
) -> CrossTransferRevertView {
    CrossTransferRevertView { from: local_address_of(registry, sender), value: amount }
}

/// The burn and the dispatch of an outbound transfer.
pub open spec fn spec_cross_transfer(
    registry: RegistryView,
    sender: Seq<char>,
    to: Seq<char>,
    amount: u128,
    data: Seq<u8>,
) -> Result<OutboundTransferView, ContractError> {
    if spec_parse_network_address(to) is None {
        Err(ContractError::InvalidToAddress)
    } else {
        Ok(
            OutboundTransferView {
                burn: BurnView { owner: sender, amount },
                dispatch: DispatchView {
                    contract_addr: registry.call_service_address,
                    message: CallMessageView {
                        to: hub_address_of(registry),
                        data: spec_encode_cross_transfer(
                            outbound_message(registry, sender, to, amount, data),
                        ),
                        rollback: Some(
                            spec_encode_cross_transfer_revert(
                                rollback_message(registry, sender, amount),
                            ),
                        ),
                    },
                    reply_id: REPLY_MSG_SUCCESS,
                },
            },
        )
    }
}

/// The registry that the transfer operations work with.
pub open spec fn spec_stored_registry(stored: Option<RegistryView>) -> Result<
    RegistryView,
    ContractError,
> {
    match stored {
        Some(registry) => Ok(registry),
        None => Err(ContractError::AddressNotFound),
    }
}

/// The action that carries out a mint, or the error in its place.
pub open spec fn mint_action(mint: Result<MintView, ContractError>) -> Result<
    ActionView,
    ContractError,
> {
    match mint {
        Ok(mint) => Ok(ActionView::Mint(mint)),
        Err(e) => Err(e),
    }
}

/// What the host is asked to do in answer to a message.  `Setup` is the
/// owner's alone once a registry is stored; every other message needs a
/// stored registry and fails with `AddressNotFound` without one.
pub open spec fn spec_execute(
    stored: Option<RegistryView>,
    sender: Seq<char>,
    msg: ExecuteMsgView,
) -> Result<ActionView, ContractError> {
    match msg {
        ExecuteMsgView::Setup { x_call, hub_address } => {
            let present_owner = match stored {
                Some(registry) => Some(registry.owner),
                None => None,
            };
            if may_write_registry(present_owner, sender) {
                Ok(ActionView::ResolveCallService { x_call, hub_address })
            } else {
                Err(ContractError::OnlyOwner)
            }
        },
        ExecuteMsgView::HandleCallMessage { from, data } => match spec_stored_registry(stored) {
            Err(e) => Err(e),
            Ok(registry) => mint_action(spec_handle_call_message(registry, from, data)),
        },
        ExecuteMsgView::CrossTransfer { to, amount, data } => match spec_stored_registry(stored) {
            Err(e) => Err(e),
            Ok(registry) => match spec_cross_transfer(registry, sender, to, amount, data) {
                Ok(transfer) => Ok(ActionView::Transfer(transfer)),
                Err(e) => Err(e),
            },
        },
        ExecuteMsgView::XCrossTransfer { from, cross_transfer_data } => match spec_stored_registry(
            stored,
        ) {
            Err(e) => Err(e),
            Ok(registry) => mint_action(spec_x_cross_transfer(registry, from, cross_transfer_data)),
        },
        ExecuteMsgView::XCrossTransferRevert {
            from,
            cross_transfer_revert_data,
        } => match spec_stored_registry(stored) {
            Err(e) => Err(e),
            Ok(registry) => mint_action(
                spec_x_cross_transfer_revert(registry, from, cross_transfer_revert_data),
            ),
        },
    }
}

/// The outcome of a completion callback.
pub open spec fn spec_reply(msg: Reply) -> Result<(), ContractError> {
    if msg.id != REPLY_MSG_SUCCESS {
        Err(ContractError::InvalidReply)
    } else if msg.dispatched {
        Ok(())
    } else {
        Err(ContractError::DispatchFailed)
    }
}

/// What the host does after the burn of an outbound transfer: it sends the
/// dispatch and records which method ran.
pub open spec fn transfer_response(transfer: OutboundTransferView) -> ResponseView {
    ResponseView {
        messages: seq![transfer.dispatch],
        attributes: seq![("method"@, "cross_transfer"@)],
    }
}

/// Tells whether `sender` may write the registry.
fn check_owner(present_owner: Option<&str>, sender: &str) -> (r: Result<(), ContractError>)
    ensures
        r == if may_write_registry(owner_view(present_owner), sender@) {
            Ok::<(), ContractError>(())
        } else {
            Err::<(), ContractError>(ContractError::OnlyOwner)
        },
{
    match present_owner {
        None => Ok(()),
        Some(owner) => if same_text(owner, sender) {
            Ok(())
        } else {
            Err(ContractError::OnlyOwner)
        },
    }
}

/// Writes the registry from the addresses that the owner names and the
/// cross-chain address that the call service gave for itself.  The network
/// id of this chain is the one of that address.  `present_owner` is the
/// owner of the registry that is stored, if one is: nobody else may write
/// another, and a refusal leaves the stored one as it is.
pub fn setup(
    present_owner: Option<&str>,
    sender: String,
    x_call: String,
    hub_address: String,
    call_service_network_address: String,
) -> (r: Result<Registry, ContractError>)
    ensures
        match r {
            Ok(registry) => spec_setup(
                owner_view(present_owner),
                sender@,
                x_call@,
                hub_address@,
                call_service_network_address@,
            ) == Ok::<RegistryView, ContractError>(registry@) && registry@.well_formed(),
            Err(e) => spec_setup(
                owner_view(present_owner),
                sender@,
                x_call@,
                hub_address@,
                call_service_network_address@,
            ) == Err::<RegistryView, ContractError>(e),
        },
        present_owner matches Some(owner) && owner@ != sender@ ==> r == Err::<
            Registry,
            ContractError,
        >(ContractError::OnlyOwner),
{
    match check_owner(present_owner, sender.as_str()) {
        Err(e) => {
            return Err(e);
        },
        Ok(_) => {},
    }
    if call_service_network_address.as_str().unicode_len() == 0 {
        return Err(ContractError::AddressNotFound);
    }
    let network_id: String = match parse_network_address(call_service_network_address.as_str()) {
        Err(e) => {
            return Err(e);
        },
        Ok((network_id, _)) => network_id.to_owned(),
    };
    let (hub_network_id, hub_account): (String, String) = match parse_protocol_address(
        hub_address.as_str(),
    ) {
        Err(e) => {
            return Err(e);
        },
        Ok((hub_network_id, hub_account)) => (hub_network_id.to_owned(), hub_account.to_owned()),
    };
    proof {
        lemma_format_of_parse(call_service_network_address@);
        lemma_format_of_parse(hub_address@);
    }
    Ok(
        Registry {
            network_id,
            hub_network_id,
            hub_account,
            call_service_address: x_call,
            call_service_network_address,
            owner: sender,
        },
    )
}

/// Describes the token and writes the first registry, which makes the
/// sender its owner.
pub fn instantiate(
    contract_address: String,
    sender: String,
    msg: InstantiateMsg,
    call_service_network_address: String,
) -> (r: Result<Instantiation, ContractError>)
    ensures
        match r {
            Ok(created) => created@.token == spec_token_info(contract_address@) && spec_setup(
                None,
                sender@,
                msg.x_call@,
                msg.hub_address@,
                call_service_network_address@,
            ) == Ok::<RegistryView, ContractError>(created@.registry)
                && created@.registry.well_formed(),
            Err(e) => spec_setup(
                None,
                sender@,
                msg.x_call@,
                msg.hub_address@,
                call_service_network_address@,
            ) == Err::<RegistryView, ContractError>(e),
        },
{
    let token = TokenInfo {
        name: String::from_str("HubToken"),
        symbol: String::from_str("HUBT"),
        decimals: 18,
        total_supply: 0,
        minter: contract_address,
        cap: None,
    };
    match setup(None, sender, msg.x_call, msg.hub_address, call_service_network_address) {
        Err(e) => Err(e),
        Ok(registry) => Ok(Instantiation { token, registry }),
    }
}

/// Checks the destination network and the account of an incoming message
/// and gives the mint that credits the account.
fn credit(
    registry: &Registry,
    address: &str,
    amount: u128,
    other_network: ContractError,
) -> (r: Result<Mint, ContractError>)
    ensures
        match r {
            Ok(mint) => spec_credit(registry@, address@, amount, other_network) == Ok::<
                MintView,
                ContractError,
            >(mint@),
            Err(e) => spec_credit(registry@, address@, amount, other_network) == Err::<
                MintView,
                ContractError,
            >(e),
        },
{
    let (network_id, account) = match parse_protocol_address(address) {
        Err(e) => {
            return Err(e);
        },
        Ok(parts) => parts,
    };
    if !same_text(network_id, registry.network_id.as_str()) {
        return Err(other_network);
    }
    if account.unicode_len() == 0 {
        return Err(ContractError::InvalidToAddress);
    }
    Ok(Mint { recipient: account.to_owned(), amount })
}

/// Answers a transfer that arrived from the hub: the mint that credits its
/// destination.  The sender must be the hub, the destination an account of
/// this network.
pub fn x_cross_transfer(
    registry: &Registry,
    from: String,
    cross_transfer_data: CrossTransfer,
) -> (r: Result<Mint, ContractError>)
    ensures
        match r {
            Ok(mint) => spec_x_cross_transfer(registry@, from@, cross_transfer_data@) == Ok::<
                MintView,
                ContractError,
            >(mint@),
            Err(e) => spec_x_cross_transfer(registry@, from@, cross_transfer_data@) == Err::<
                MintView,
                ContractError,
            >(e),
        },
{
    let hub: String = format_address(
        PROTOCOL,
        registry.hub_network_id.as_str(),
        registry.hub_account.as_str(),
    );
    if !same_text(from.as_str(), hub.as_str()) {
        return Err(ContractError::Unauthorized);
    }
    credit(
        registry,
        cross_transfer_data.to.as_str(),
        cross_transfer_data.value,
        ContractError::WrongNetwork,
    )
}

/// Answers a revert that the call service handed back: the mint that
/// restores what the outbound transfer burned.  The sender must be the call
/// service itself, the account one of this network.
pub fn x_cross_transfer_revert(
    registry: &Registry,
    from: String,
    cross_transfer_revert_data: CrossTransferRevert,
) -> (r: Result<Mint, ContractError>)
    ensures
        match r {
            Ok(mint) => spec_x_cross_transfer_revert(registry@, from@, cross_transfer_revert_data@)
                == Ok::<MintView, ContractError>(mint@),
            Err(e) => spec_x_cross_transfer_revert(registry@, from@, cross_transfer_revert_data@)
                == Err::<MintView, ContractError>(e),
        },
{
    if !same_text(from.as_str(), registry.call_service_network_address.as_str()) {
        return Err(ContractError::OnlyCallService);
    }
    credit(
        registry,
        cross_transfer_revert_data.from.as_str(),
        cross_transfer_revert_data.value,
        ContractError::InvalidBTPAddress,
    )
}

/// Takes a payload that the call service delivers, reads the message in it
/// and answers it as its kind demands.
pub fn handle_call_message(registry: &Registry, from: String, data: Vec<u8>) -> (r: Result<
    Mint,
    ContractError,
>)
    ensures
        match r {
            Ok(mint) => spec_handle_call_message(registry@, from@, data@) == Ok::<
                MintView,
                ContractError,
            >(mint@),
            Err(e) => spec_handle_call_message(registry@, from@, data@) == Err::<
                MintView,
                ContractError,
            >(e),
        },
{
    match decode(data.as_slice()) {
        Err(e) => Err(e),
        Ok(Message::CrossTransfer(transfer)) => x_cross_transfer(registry, from, transfer),
        Ok(Message::CrossTransferRevert(revert)) => x_cross_transfer_revert(registry, from, revert),
    }
}

/// Decides an outbound transfer of `amount` from `sender` to the remote
/// address `to`: the burn of the amount, and the dispatch to the hub of the
/// transfer message together with the revert that undoes it.  The
/// destination must be written as a network address; whether the account
/// exists on the far side cannot be known here.  An amount of zero is taken
/// like any other.
pub fn cross_transfer(
    registry: &Registry,
    sender: String,
    to: String,
    amount: u128,
    data: bytes::Bytes,
) -> (r: Result<OutboundTransfer, ContractError>)
    ensures
        match r {
            Ok(transfer) => spec_cross_transfer(
                registry@,
                sender@,
                to@,
                amount,
                bytes_contents(data),
            ) == Ok::<OutboundTransferView, ContractError>(transfer@),
            Err(e) => spec_cross_transfer(registry@, sender@, to@, amount, bytes_contents(data))
                == Err::<OutboundTransferView, ContractError>(e),
        },
{
    match parse_network_address(to.as_str()) {
        Err(_) => {
            return Err(ContractError::InvalidToAddress);
        },
        Ok(_) => {},
    }
    let from: String = format_address(PROTOCOL, registry.network_id.as_str(), sender.as_str());
    let call_data = CrossTransfer {
        from: from.clone(),
        to,
        value: amount,
        data: bytes_to_vec(&data),
    };
    let rollback_data = CrossTransferRevert { from, value: amount };
    let hub: String = format_address(
        PROTOCOL,
        registry.hub_network_id.as_str(),
        registry.hub_account.as_str(),
    );
    let message = CallMessage {
        to: hub,
        data: call_data.encode_cross_transfer_message(),
        rollback: Some(rollback_data.encode_cross_transfer_revert_message()),
    };
    Ok(
        OutboundTransfer {
            burn: Burn { owner: sender, amount },
            dispatch: Dispatch {
                contract_addr: registry.call_service_address.clone(),
                message,
                reply_id: REPLY_MSG_SUCCESS,
            },
        },
    )
}

/// Finishes an outbound transfer once the host has tried the burn.  A burn
/// that the ledger refused fails the operation, and the dispatch is dropped
/// with it.
pub fn complete_transfer(transfer: OutboundTransfer, burned: bool) -> (r: Result<
    Response,
    ContractError,
>)
    ensures
        match r {
            Ok(response) => burned && response@ == transfer_response(transfer@),
            Err(e) => !burned && e == ContractError::MintError,
        },
{
    match settle(burned) {
        Err(e) => Err(e),
        Ok(_) => {
            let mut messages: Vec<Dispatch> = Vec::new();
            messages.push(transfer.dispatch);
            let mut attributes: Vec<Attribute> = Vec::new();
            attributes.push(
                Attribute {
                    key: String::from_str("method"),
                    value: String::from_str("cross_transfer"),
                },
            );
            let response = Response { messages, attributes };
            assert(response@.messages =~= transfer_response(transfer@).messages);
            assert(response@.attributes =~= transfer_response(transfer@).attributes);
            Ok(response)
        },
    }
}

/// Routes a message to the operation that serves it.  `stored` is the
/// registry that the host found in storage, if it found one.
pub fn execute(stored: Option<Registry>, sender: String, msg: ExecuteMsg) -> (r: Result<
    Action,
    ContractError,
>)
    ensures
        match r {
            Ok(action) => spec_execute(stored_view(stored), sender@, msg@) == Ok::<
                ActionView,
                ContractError,
            >(action@),
            Err(e) => spec_execute(stored_view(stored), sender@, msg@) == Err::<
                ActionView,
                ContractError,
            >(e),
        },
{
    match msg {
        ExecuteMsg::Setup { x_call, hub_address } => {
            let allowed = match &stored {
                Some(registry) => check_owner(Some(registry.owner.as_str()), sender.as_str()),
                None => check_owner(None, sender.as_str()),
            };
            match allowed {
                Err(e) => Err(e),
                Ok(_) => Ok(Action::ResolveCallService { x_call, hub_address }),
            }
        },
        ExecuteMsg::HandleCallMessage { from, data } => match stored_registry(stored) {
            Err(e) => Err(e),
            Ok(registry) => match handle_call_message(&registry, from, data) {
                Ok(mint) => Ok(Action::Mint(mint)),
                Err(e) => Err(e),
            },
        },
        ExecuteMsg::CrossTransfer { to, amount, data } => match stored_registry(stored) {
            Err(e) => Err(e),
            Ok(registry) => match cross_transfer(
                &registry,
                sender,
                to,
                amount,
                bytes_from_vec(data),
            ) {
                Ok(transfer) => Ok(Action::Transfer(transfer)),
                Err(e) => Err(e),
            },
        },
        ExecuteMsg::XCrossTransfer { from, cross_transfer_data } => match stored_registry(stored) {
            Err(e) => Err(e),
            Ok(registry) => match x_cross_transfer(&registry, from, cross_transfer_data) {
                Ok(mint) => Ok(Action::Mint(mint)),
                Err(e) => Err(e),
            },
        },
        ExecuteMsg::XCrossTransferRevert {
            from,
            cross_transfer_revert_data,
        } => match stored_registry(stored) {
            Err(e) => Err(e),
            Ok(registry) => match x_cross_transfer_revert(
                &registry,
                from,
                cross_transfer_revert_data,
            ) {
                Ok(mint) => Ok(Action::Mint(mint)),
                Err(e) => Err(e),
            },
        },
    }
}

/// Takes the host's report on a dispatch.  Only the id that dispatches
/// register is known here.
pub fn reply(msg: Reply) -> (r: Result<(), ContractError>)
    ensures
        r == spec_reply(msg),
{
    if msg.id == REPLY_MSG_SUCCESS {
        reply_msg_success(msg)
    } else {
        Err(ContractError::InvalidReply)
    }
}

/// Closes a dispatch: one that the call service took needs nothing more,
/// one that it did not take fails the operation that made it.
pub fn reply_msg_success(msg: Reply) -> (r: Result<(), ContractError>)
    ensures
        r == if msg.dispatched {
            Ok::<(), ContractError>(())
        } else {
            Err::<(), ContractError>(ContractError::DispatchFailed)
        },
{
    if msg.dispatched {
        Ok(())
    } else {
        Err(ContractError::DispatchFailed)
    }
}

} // verus!
