//! What holds of the contract as a whole.
//!
//! Each law is stated over the spec functions that the contracts of the
//! operations use, so it holds of every call of those operations.

use crate::constants::{
    lemma_tags, PROTOCOL, REPLY_MSG_SUCCESS, X_CROSS_TRANSFER, X_CROSS_TRANSFER_REVERT,
};
use crate::contract::{
    hub_address_of, local_address_of, outbound_message, rollback_message,
    spec_cross_transfer, spec_execute, spec_handle_call_message, spec_reply, spec_setup,
    spec_x_cross_transfer, spec_x_cross_transfer_revert,
};
use crate::data_types::{
    lemma_amount_on_the_wire, lemma_decode_of_encode_cross_transfer, lemma_decode_of_encode_cross_transfer_revert,
    lemma_decode_strings_iff_encode, spec_decode, spec_encode_cross_transfer,
    spec_encode_cross_transfer_revert, utf8_fields, CrossTransferRevertView, CrossTransferView,
    MessageView,
};
use crate::error::ContractError;
use crate::ledger::{balance_of, burned, can_burn, minted, BurnView, MintView};
use crate::msg::{ActionView, ExecuteMsgView, Reply};
use crate::network_address::{
    has_no_slash, lemma_format_of_parse, lemma_split_of_format, spec_parse_network_address,
    spec_parse_protocol_address, split_address,
};
use crate::decimal::parse_decimal;
use crate::rlp::{decode_list, encode_list, fits};
use crate::state::RegistryView;
use vstd::prelude::*;
use vstd::utf8::*;

verus! {

/// A local account's address parses back to this network and that account.
pub proof fn lemma_local_address(registry: RegistryView, account: Seq<char>)
    requires
        registry.well_formed(),
    ensures
        spec_parse_protocol_address(local_address_of(registry, account)) == Some(
            (registry.network_id, account),
        ),
{
    lemma_tags();
    assert(has_no_slash(PROTOCOL@));
    lemma_split_of_format(PROTOCOL@, registry.network_id, account);
}

/// The hub check accepts the hub that the owner named: once `setup` has
/// taken a hub address written under the protocol of the bridge, the address
/// that incoming transfers are held against is that very string.
pub proof fn lemma_hub_address_after_setup(
    sender: Seq<char>,
    x_call: Seq<char>,
    hub_address: Seq<char>,
    call_service_network_address: Seq<char>,
)
    requires
        spec_setup(None, sender, x_call, hub_address, call_service_network_address) is Ok,
        split_address(hub_address) is Some,
        split_address(hub_address)->0.protocol == PROTOCOL@,
    ensures
        hub_address_of(
            spec_setup(None, sender, x_call, hub_address, call_service_network_address)->Ok_0,
        ) == hub_address,
        spec_setup(
            None,
            sender,
            x_call,
            hub_address,
            call_service_network_address,
        )->Ok_0.call_service_network_address == call_service_network_address,
{
    lemma_format_of_parse(hub_address);
}

/// Owner-only mutation: once a registry is stored, a `Setup` message and
/// `setup` itself fail with `OnlyOwner` for everyone but its owner, whatever
/// addresses they name, so the stored registry stays as it is; and the
/// registry that the owner writes names the same owner.
pub proof fn lemma_owner_only_setup(
    stored: RegistryView,
    sender: Seq<char>,
    x_call: Seq<char>,
    hub_address: Seq<char>,
    call_service_network_address: Seq<char>,
)
    ensures
        sender != stored.owner ==> spec_execute(
            Some(stored),
            sender,
            ExecuteMsgView::Setup { x_call, hub_address },
        ) == Err::<ActionView, ContractError>(ContractError::OnlyOwner),
        sender != stored.owner ==> spec_setup(
            Some(stored.owner),
            sender,
            x_call,
            hub_address,
            call_service_network_address,
        ) == Err::<RegistryView, ContractError>(ContractError::OnlyOwner),
        spec_setup(Some(stored.owner), sender, x_call, hub_address, call_service_network_address)
            matches Ok(written) ==> sender == stored.owner && written.owner == stored.owner,
{
}

/// Nothing but `Setup` runs without a registry: every other message fails
/// with `AddressNotFound` while none is stored.
pub proof fn lemma_no_registry(sender: Seq<char>, msg: ExecuteMsgView)
    requires
        !(msg is Setup),
    ensures
        spec_execute(None, sender, msg) == Err::<ActionView, ContractError>(
            ContractError::AddressNotFound,
        ),
{
}

/// Authorization separation: the hub and the call service are two roots of
/// trust.  Where their addresses differ, a revert that claims to come from
/// the hub fails with `OnlyCallService`, and a transfer that claims to come
/// from the call service fails with `Unauthorized`, whatever they carry;
/// the same holds of the payloads that decode to them.
pub proof fn lemma_authorization_separation(
    registry: RegistryView,
    transfer: CrossTransferView,
    revert: CrossTransferRevertView,
    payload: Seq<u8>,
)
    requires
        hub_address_of(registry) != registry.call_service_network_address,
    ensures
        spec_x_cross_transfer_revert(registry, hub_address_of(registry), revert) == Err::<
            MintView,
            ContractError,
        >(ContractError::OnlyCallService),
        spec_x_cross_transfer(registry, registry.call_service_network_address, transfer) == Err::<
            MintView,
            ContractError,
        >(ContractError::Unauthorized),
        spec_decode(payload) is Ok && spec_decode(payload)->Ok_0 is CrossTransferRevert
            ==> spec_handle_call_message(registry, hub_address_of(registry), payload) == Err::<
            MintView,
            ContractError,
        >(ContractError::OnlyCallService),
        spec_decode(payload) is Ok && spec_decode(payload)->Ok_0 is CrossTransfer
            ==> spec_handle_call_message(registry, registry.call_service_network_address, payload)
            == Err::<MintView, ContractError>(ContractError::Unauthorized),
{
}

/// Network gate: a transfer from the hub whose destination lies on another
/// network fails with `WrongNetwork`, and a revert from the call service for
/// an account of another network fails with `InvalidBTPAddress`.
pub proof fn lemma_network_gate(
    registry: RegistryView,
    transfer: CrossTransferView,
    revert: CrossTransferRevertView,
)
    ensures
        (spec_parse_protocol_address(transfer.to) matches Some(parts) && parts.0
            != registry.network_id) ==> spec_x_cross_transfer(
            registry,
            hub_address_of(registry),
            transfer,
        ) == Err::<MintView, ContractError>(ContractError::WrongNetwork),
        (spec_parse_protocol_address(revert.from) matches Some(parts) && parts.0
            != registry.network_id) ==> spec_x_cross_transfer_revert(
            registry,
            registry.call_service_network_address,
            revert,
        ) == Err::<MintView, ContractError>(ContractError::InvalidBTPAddress),
{
}

/// Nothing is minted for another network or for a stranger: whenever an
/// incoming transfer yields a mint, it came from the hub, its destination
/// names this network, and the mint credits the account of the destination
/// with the value of the transfer.
pub proof fn lemma_mint_only_for_local_destination(
    registry: RegistryView,
    from: Seq<char>,
    transfer: CrossTransferView,
)
    requires
        spec_x_cross_transfer(registry, from, transfer) is Ok,
    ensures
        from == hub_address_of(registry),
        spec_parse_protocol_address(transfer.to) == Some(
            (registry.network_id, spec_x_cross_transfer(registry, from, transfer)->Ok_0.recipient),
        ),
        spec_x_cross_transfer(registry, from, transfer)->Ok_0.amount == transfer.value,
{
}

/// Inbound crediting: a transfer from the hub to the local account
/// `account` yields the mint of its value to that account, which raises the
/// balance of the account by exactly the value and leaves every other
/// balance as it was.
pub proof fn lemma_inbound_crediting(
    registry: RegistryView,
    transfer: CrossTransferView,
    account: Seq<char>,
    balances: Map<Seq<char>, nat>,
    other: Seq<char>,
)
    requires
        registry.well_formed(),
        account.len() > 0,
        transfer.to == local_address_of(registry, account),
        other != account,
    ensures
        spec_x_cross_transfer(registry, hub_address_of(registry), transfer) == Ok::<
            MintView,
            ContractError,
        >(MintView { recipient: account, amount: transfer.value }),
        balance_of(
            minted(balances, MintView { recipient: account, amount: transfer.value }),
            account,
        ) == balance_of(balances, account) + transfer.value,
        balance_of(
            minted(balances, MintView { recipient: account, amount: transfer.value }),
            other,
        ) == balance_of(balances, other),
{
    lemma_local_address(registry, account);
}

/// The payload of an outbound transfer carries the amount: what is
/// dispatched decodes to a transfer from the sender's address to the
/// destination over exactly the amount that is burned.
pub proof fn lemma_outbound_payload(
    registry: RegistryView,
    sender: Seq<char>,
    to: Seq<char>,
    amount: u128,
    data: Seq<u8>,
)
    requires
        spec_parse_network_address(to) is Some,
        valid_utf8(data),
        fits(
            spec_encode_cross_transfer(outbound_message(registry, sender, to, amount, data)).len(),
        ),
    ensures
        spec_cross_transfer(registry, sender, to, amount, data) is Ok,
        ({
            let transfer = spec_cross_transfer(registry, sender, to, amount, data)->Ok_0;
            &&& transfer.burn == BurnView { owner: sender, amount }
            &&& spec_decode(transfer.dispatch.message.data) == Ok::<MessageView, ContractError>(
                MessageView::CrossTransfer(outbound_message(registry, sender, to, amount, data)),
            )
        }),
{
    lemma_decode_of_encode_cross_transfer(outbound_message(registry, sender, to, amount, data));
}

/// Balance conservation: an outbound transfer of an amount that the sender
/// holds lowers the sender's balance by the amount and dispatches a payload
/// whose fourth field reads as that amount, and the rollback that was
/// registered with it, once the call service hands it back, raises the
/// balance to what it was.
pub proof fn lemma_balance_conservation(
    registry: RegistryView,
    sender: Seq<char>,
    to: Seq<char>,
    amount: u128,
    data: Seq<u8>,
    balances: Map<Seq<char>, nat>,
)
    requires
        registry.well_formed(),
        sender.len() > 0,
        spec_parse_network_address(to) is Some,
        amount <= balance_of(balances, sender),
        fits(
            spec_encode_cross_transfer(outbound_message(registry, sender, to, amount, data)).len(),
        ),
        fits(spec_encode_cross_transfer_revert(rollback_message(registry, sender, amount)).len()),
    ensures
        spec_cross_transfer(registry, sender, to, amount, data) is Ok,
        ({
            let transfer = spec_cross_transfer(registry, sender, to, amount, data)->Ok_0;
            let after_burn = burned(balances, transfer.burn);
            let restored = spec_handle_call_message(
                registry,
                registry.call_service_network_address,
                transfer.dispatch.message.rollback->0,
            );
            &&& can_burn(balances, transfer.burn)
            &&& balance_of(after_burn, sender) == balance_of(balances, sender) - amount
            &&& decode_list(transfer.dispatch.message.data) matches Some(fields) && fields.len()
                == 5 && parse_decimal(fields[3]) == Some(amount)
            &&& restored == Ok::<MintView, ContractError>(MintView { recipient: sender, amount })
            &&& balance_of(minted(after_burn, restored->Ok_0), sender) == balance_of(
                balances,
                sender,
            )
        }),
{
    lemma_amount_on_the_wire(outbound_message(registry, sender, to, amount, data));
    lemma_decode_of_encode_cross_transfer_revert(rollback_message(registry, sender, amount));
    lemma_local_address(registry, sender);
}

/// Unknown tag rejection: a payload that carries a list of strings is
/// refused with `InvalidMethod` when the first string is no method tag, and
/// with `InvalidData` when the list is empty or too short for its tag.
pub proof fn lemma_unknown_tag(list: Seq<Seq<char>>)
    requires
        fits(encode_list(utf8_fields(list)).len()),
    ensures
        list.len() > 0 && list[0] != X_CROSS_TRANSFER@ && list[0] != X_CROSS_TRANSFER_REVERT@
            ==> spec_decode(encode_list(utf8_fields(list))) == Err::<MessageView, ContractError>(
            ContractError::InvalidMethod,
        ),
        list.len() == 0 || (list[0] == X_CROSS_TRANSFER@ && list.len() < 5) || (list[0]
            == X_CROSS_TRANSFER_REVERT@ && list.len() < 3) ==> spec_decode(
            encode_list(utf8_fields(list)),
        ) == Err::<MessageView, ContractError>(ContractError::InvalidData),
{
    lemma_decode_strings_iff_encode(encode_list(utf8_fields(list)), list);
    lemma_tags();
}

/// Unknown callback rejection: a completion callback under any id but the
/// one that dispatches register fails with `InvalidReply`.
pub proof fn lemma_unknown_callback(msg: Reply)
    requires
        msg.id != REPLY_MSG_SUCCESS,
    ensures
        spec_reply(msg) == Err::<(), ContractError>(ContractError::InvalidReply),
{
}

} // verus!
