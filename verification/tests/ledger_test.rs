use bytes::Bytes;
use cosmwasm_std::testing::{mock_dependencies, mock_env, mock_info};
use cosmwasm_std::{Addr, Uint128};
use cw20_base::contract::{execute_burn, execute_mint, query_balance};
use cw20_base::state::{MinterData, TokenInfo, TOKEN_INFO};
use cw_hub_bnusd::contract::{complete_transfer, cross_transfer, handle_call_message, instantiate};
use cw_hub_bnusd::data_types::{decode, CrossTransfer, Message};
use cw_hub_bnusd::error::ContractError;
use cw_hub_bnusd::ledger::settle;
use cw_hub_bnusd::msg::InstantiateMsg;

const HUB: &str = "btp://0x1.icon/cx7866543210fedcba9876543210fedcba98765432";
const RELAY: &str = "btp://0x38.bsc/archway1relay";

#[test]
fn the_token_ledger_follows_the_instructions() {
    let mut deps = mock_dependencies();
    let env = mock_env();
    let contract = env.contract.address.to_string();

    let created = instantiate(
        contract.clone(),
        "owner".to_string(),
        InstantiateMsg { x_call: "archway1xcall".to_string(), hub_address: HUB.to_string() },
        RELAY.to_string(),
    )
    .unwrap();
    TOKEN_INFO
        .save(
            deps.as_mut().storage,
            &TokenInfo {
                name: created.token.name.clone(),
                symbol: created.token.symbol.clone(),
                decimals: created.token.decimals,
                total_supply: Uint128::new(created.token.total_supply),
                mint: Some(MinterData {
                    minter: Addr::unchecked(created.token.minter.clone()),
                    cap: created.token.cap.map(Uint128::new),
                }),
            },
        )
        .unwrap();
    let registry = created.registry;
    let balance = |deps: &cosmwasm_std::OwnedDeps<_, _, _>, who: &str| {
        query_balance(deps.as_ref(), who.to_string()).unwrap().balance.u128()
    };

    // an incoming transfer credits the account
    let incoming = CrossTransfer {
        from: "btp://0x1.icon/hx0123".to_string(),
        to: "btp://0x38.bsc/archway1user".to_string(),
        value: 1000,
        data: Vec::new(),
    };
    let mint = handle_call_message(&registry, HUB.to_string(), incoming.encode_cross_transfer_message()).unwrap();
    let minted = execute_mint(
        deps.as_mut(),
        env.clone(),
        mock_info(&contract, &[]),
        mint.recipient.clone(),
        Uint128::new(mint.amount),
    );
    assert_eq!(settle(minted.is_ok()), Ok(()));
    assert_eq!(balance(&deps, "archway1user"), 1000);

    // an outbound transfer burns the amount and carries it in its payload
    let transfer = cross_transfer(
        &registry,
        "archway1user".to_string(),
        "btp://0x1.icon/hx9876".to_string(),
        400,
        Bytes::from(b"memo".to_vec()),
    )
    .unwrap();
    let burned = execute_burn(
        deps.as_mut(),
        env.clone(),
        mock_info(&transfer.burn.owner, &[]),
        Uint128::new(transfer.burn.amount),
    );
    let response = complete_transfer(transfer, burned.is_ok()).unwrap();
    assert_eq!(balance(&deps, "archway1user"), 600);
    let sent = response.messages[0].message.clone();
    match decode(&sent.data) {
        Ok(Message::CrossTransfer(m)) => assert_eq!(m.value, 400),
        other => panic!("no transfer: {:?}", other),
    }

    // the rollback, handed back by the call service, restores the balance
    let restore = handle_call_message(&registry, RELAY.to_string(), sent.rollback.unwrap()).unwrap();
    let restored = execute_mint(
        deps.as_mut(),
        env.clone(),
        mock_info(&contract, &[]),
        restore.recipient.clone(),
        Uint128::new(restore.amount),
    );
    assert_eq!(settle(restored.is_ok()), Ok(()));
    assert_eq!(balance(&deps, "archway1user"), 1000);

    // a burn beyond the balance fails the transfer and changes nothing
    let transfer = cross_transfer(
        &registry,
        "archway1user".to_string(),
        "btp://0x1.icon/hx9876".to_string(),
        1001,
        Bytes::new(),
    )
    .unwrap();
    let burned = execute_burn(
        deps.as_mut(),
        env,
        mock_info(&transfer.burn.owner, &[]),
        Uint128::new(transfer.burn.amount),
    );
    assert_eq!(complete_transfer(transfer, burned.is_ok()), Err(ContractError::MintError));
    assert_eq!(balance(&deps, "archway1user"), 1000);
}
