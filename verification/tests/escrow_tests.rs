use escrow::contract::{
    execute, execute_cancel_escrow, execute_receive_nft, execute_send_funds, get_amount_of_denom,
    instantiate, migrate, query, query_config, query_get_escrow,
};
use escrow::msg::{
    Coin, EscrowInfo, ExecuteMsg, InstantiateMsg, MigrateMsg, NftReceiveMsg, QueryMsg,
    QueryResponse, TransferNftInstruction,
};
use escrow::state::{Config, State};
use escrow::ContractError;

const MOCK_TIME: u64 = 1571797419;

fn s(text: &str) -> String {
    text.to_string()
}

fn coins(amount: u128, denom: &str) -> Vec<Coin> {
    vec![Coin { denom: s(denom), amount }]
}

fn create_msg() -> ExecuteMsg {
    ExecuteMsg::ReceiveNft {
        sender: s("addr0000"),
        token_id: s("0001"),
        msg: NftReceiveMsg::CreateEscrow {
            cw721_address: s("nft0001"),
            price: 1000,
            buyer: s("addr0001"),
        },
    }
}

/// A state holding the configuration and one escrow created by "addr0000"
/// for buyer "addr0001" at price 1000.
fn state_with_escrow() -> State {
    let mut state = State::new();
    instantiate(&mut state, s("addr0000"), InstantiateMsg { denom: s("usei") });
    let res = execute(&mut state, s("nft0001"), vec![], MOCK_TIME, create_msg());
    assert!(res.is_ok());
    state
}

#[test]
fn proper_initialization() {
    let mut state = State::new();

    let msg = InstantiateMsg { denom: s("usei") };
    instantiate(&mut state, s("addr0000"), msg);

    let config = query_config(&state).unwrap();
    assert_eq!("usei", config.denom.as_str());
    assert_eq!("addr0000", config.owner.as_str());
    assert_eq!(0, config.escrow_id);
    assert!(config.enabled);
}

#[test]
fn create_escrow() {
    let mut state = State::new();

    let msg = InstantiateMsg { denom: s("usei") };
    instantiate(&mut state, s("addr0000"), msg);

    let res = execute(&mut state, s("nft0001"), vec![], MOCK_TIME, create_msg()).unwrap();
    assert_eq!(0, res.messages.len());

    let config = query_config(&state).unwrap();
    assert_eq!(1, config.escrow_id);
}

#[test]
fn cancel_escrow() {
    let mut state = state_with_escrow();

    let res = query(&state, QueryMsg::GetEscrow { id: 0u64 }).unwrap();
    match res {
        QueryResponse::Escrow(escrow) => assert_eq!("0001", escrow.token_id.as_str()),
        _ => panic!("expected an escrow record"),
    }

    let msg = ExecuteMsg::CancelEscrow { escrow_id: 0u64 };
    let res = execute(&mut state, s("addr0000"), vec![], MOCK_TIME, msg).unwrap();
    assert_eq!(
        res.messages[0],
        TransferNftInstruction {
            cw721_address: s("nft0001"),
            token_id: s("0001"),
            recipient: s("addr0000"),
        }
    );
    assert_eq!(1, res.messages.len());
}

#[test]
fn send_funds() {
    let mut state = state_with_escrow();

    let msg = ExecuteMsg::SendFunds { escrow_id: 0 };
    let res = execute(&mut state, s("addr0001"), coins(500, "usei"), MOCK_TIME, msg).unwrap_err();
    assert_eq!(res, ContractError::InsufficientFund {});

    let msg = ExecuteMsg::SendFunds { escrow_id: 0 };
    let res = execute(&mut state, s("addr0001"), coins(1000, "usei"), MOCK_TIME, msg).unwrap();
    assert_eq!(
        res.messages[0],
        TransferNftInstruction {
            cw721_address: s("nft0001"),
            token_id: s("0001"),
            recipient: s("addr0001"),
        }
    );
}

#[test]
fn created_record_is_unfunded_and_not_canceled() {
    let state = state_with_escrow();
    let escrow = query_get_escrow(&state, 0).unwrap();
    assert_eq!(
        escrow,
        EscrowInfo {
            token_id: s("0001"),
            cw721_address: s("nft0001"),
            price: 1000,
            amount: 0,
            seller: s("addr0000"),
            buyer: s("addr0001"),
            created_timestamp: MOCK_TIME,
            canceled_timestamp: 0,
        }
    );
}

#[test]
fn creation_assigns_sequential_ids() {
    let mut state = state_with_escrow();

    let before = query_config(&state).unwrap().escrow_id;
    assert_eq!(1, before);

    let res = execute(&mut state, s("nft0001"), vec![], MOCK_TIME, create_msg());
    assert!(res.is_ok());

    let config = query_config(&state).unwrap();
    assert_eq!(2, config.escrow_id);
    let second = query_get_escrow(&state, 1).unwrap();
    assert_eq!("0001", second.token_id.as_str());
    assert_eq!("addr0000", second.seller.as_str());
}

#[test]
fn creation_appends_to_creator_index() {
    let mut state = state_with_escrow();
    let res = execute(&mut state, s("nft0001"), vec![], MOCK_TIME, create_msg());
    assert!(res.is_ok());

    assert_eq!(1, state.creators.len());
    assert_eq!("addr0000", state.creators[0].seller.as_str());
    assert_eq!(2, state.creators[0].escrows.len());

    let other = ExecuteMsg::ReceiveNft {
        sender: s("addr0002"),
        token_id: s("0002"),
        msg: NftReceiveMsg::CreateEscrow {
            cw721_address: s("nft0001"),
            price: 25,
            buyer: s("addr0001"),
        },
    };
    let res = execute(&mut state, s("nft0001"), vec![], MOCK_TIME, other);
    assert!(res.is_ok());
    assert_eq!(2, state.creators.len());
    assert_eq!("addr0002", state.creators[1].seller.as_str());
    assert_eq!(1, state.creators[1].escrows.len());
}

#[test]
fn creation_rejects_wrong_collection_sender() {
    let mut state = State::new();
    instantiate(&mut state, s("addr0000"), InstantiateMsg { denom: s("usei") });

    let res = execute(&mut state, s("addr0002"), vec![], MOCK_TIME, create_msg()).unwrap_err();
    assert_eq!(res, ContractError::InvalidCw721Token {});
    assert_eq!(0, query_config(&state).unwrap().escrow_id);
}

#[test]
fn cancel_rejects_non_seller() {
    let mut state = state_with_escrow();
    let res =
        execute_cancel_escrow(&mut state, s("addr0001"), MOCK_TIME, 0).unwrap_err();
    assert_eq!(res, ContractError::CannotCancelEscrowNotSeller {});
}

#[test]
fn cancel_rejects_non_seller_even_when_funded() {
    let mut state = State::new();
    state.config = Some(Config {
        owner: s("addr0000"),
        escrow_id: 1,
        denom: s("usei"),
        enabled: true,
    });
    state.escrows.push(EscrowInfo {
        token_id: s("0001"),
        cw721_address: s("nft0001"),
        price: 1000,
        amount: 500,
        seller: s("addr0000"),
        buyer: s("addr0001"),
        created_timestamp: MOCK_TIME,
        canceled_timestamp: 0,
    });

    let res = execute_cancel_escrow(&mut state, s("addr0001"), MOCK_TIME, 0).unwrap_err();
    assert_eq!(res, ContractError::CannotCancelEscrowNotSeller {});

    let res = execute_cancel_escrow(&mut state, s("addr0000"), MOCK_TIME, 0).unwrap_err();
    assert_eq!(res, ContractError::CannotCancelEscrowNoFunds {});
}

#[test]
fn cancel_persists_cancellation_time() {
    let mut state = state_with_escrow();
    let res = execute_cancel_escrow(&mut state, s("addr0000"), MOCK_TIME + 7, 0);
    assert!(res.is_ok());
    let escrow = query_get_escrow(&state, 0).unwrap();
    assert_eq!(MOCK_TIME + 7, escrow.canceled_timestamp);
    assert_eq!(MOCK_TIME, escrow.created_timestamp);
}

#[test]
fn settle_rejects_wrong_buyer() {
    let mut state = state_with_escrow();
    let res =
        execute_send_funds(&mut state, s("addr0002"), coins(1000, "usei"), 0).unwrap_err();
    assert_eq!(res, ContractError::InvalidBuyer {});
}

#[test]
fn settle_rejects_payment_one_below_price() {
    let mut state = state_with_escrow();
    let res =
        execute_send_funds(&mut state, s("addr0001"), coins(999, "usei"), 0).unwrap_err();
    assert_eq!(res, ContractError::InsufficientFund {});
}

#[test]
fn settle_rejects_wrong_denomination() {
    let mut state = state_with_escrow();
    let res =
        execute_send_funds(&mut state, s("addr0001"), coins(5000, "uatom"), 0).unwrap_err();
    assert_eq!(res, ContractError::InsufficientFund {});
}

#[test]
fn unknown_escrow_is_not_found() {
    let mut state = state_with_escrow();
    let res = execute_cancel_escrow(&mut state, s("addr0000"), MOCK_TIME, 5).unwrap_err();
    assert_eq!(res, ContractError::NotFound {});
    let res = execute_send_funds(&mut state, s("addr0001"), coins(1000, "usei"), 5).unwrap_err();
    assert_eq!(res, ContractError::NotFound {});
    let res = query_get_escrow(&state, 5).unwrap_err();
    assert_eq!(res, ContractError::NotFound {});
}

#[test]
fn disabled_module_rejects_all_operations() {
    let mut state = State::new();
    instantiate(&mut state, s("addr0000"), InstantiateMsg { denom: s("usei") });
    let res = execute(&mut state, s("nft0001"), vec![], MOCK_TIME, create_msg());
    assert!(res.is_ok());
    match &mut state.config {
        Some(config) => config.enabled = false,
        None => panic!("the module was initialized"),
    }

    let res = execute(&mut state, s("nft0001"), vec![], MOCK_TIME, create_msg()).unwrap_err();
    assert_eq!(res, ContractError::Disabled {});
    let res = execute_cancel_escrow(&mut state, s("addr0000"), MOCK_TIME, 0).unwrap_err();
    assert_eq!(res, ContractError::Disabled {});
    let res =
        execute_send_funds(&mut state, s("addr0001"), coins(1000, "usei"), 0).unwrap_err();
    assert_eq!(res, ContractError::Disabled {});
    let res = execute_send_funds(&mut state, s("addr0001"), coins(1000, "usei"), 9).unwrap_err();
    assert_eq!(res, ContractError::Disabled {});
}

#[test]
fn uninitialized_module_reports_not_found() {
    let mut state = State::new();
    let res = execute_cancel_escrow(&mut state, s("addr0000"), MOCK_TIME, 0).unwrap_err();
    assert_eq!(res, ContractError::NotFound {});
    let res = execute_send_funds(&mut state, s("addr0001"), coins(1000, "usei"), 0).unwrap_err();
    assert_eq!(res, ContractError::NotFound {});
    let res = query_config(&state).unwrap_err();
    assert_eq!(res, ContractError::NotFound {});
}

#[test]
fn amount_extraction_sums_matching_coins_only() {
    let funds = vec![
        Coin { denom: s("usei"), amount: 500 },
        Coin { denom: s("uatom"), amount: 300 },
        Coin { denom: s("usei"), amount: 700 },
    ];
    assert_eq!(1200, get_amount_of_denom(&funds, &s("usei")));
    assert_eq!(300, get_amount_of_denom(&funds, &s("uatom")));
    assert_eq!(0, get_amount_of_denom(&funds, &s("uosmo")));
    assert_eq!(0, get_amount_of_denom(&vec![], &s("usei")));
}

#[test]
fn migrate_checks_stored_name() {
    assert!(migrate(s("escrow"), MigrateMsg {}).is_ok());
    let res = migrate(s("marketplace"), MigrateMsg {}).unwrap_err();
    assert_eq!(
        res,
        ContractError::CannotMigrate { previous_contract: s("marketplace") }
    );
}

#[test]
fn full_lifecycle_scenario() {
    // Initialize with denomination "X"; create from collection "C" for
    // depositor "S", token "T1", price 1000, buyer "B".
    let mut state = State::new();
    instantiate(&mut state, s("A"), InstantiateMsg { denom: s("X") });
    let create = || ExecuteMsg::ReceiveNft {
        sender: s("S"),
        token_id: s("T1"),
        msg: NftReceiveMsg::CreateEscrow {
            cw721_address: s("C"),
            price: 1000,
            buyer: s("B"),
        },
    };
    let res = execute(&mut state, s("C"), vec![], MOCK_TIME, create()).unwrap();
    assert_eq!(0, res.messages.len());
    assert_eq!(1, query_config(&state).unwrap().escrow_id);

    // Seller cancels escrow 0: one instruction returning the asset to "S".
    let res = execute(
        &mut state,
        s("S"),
        vec![],
        MOCK_TIME,
        ExecuteMsg::CancelEscrow { escrow_id: 0 },
    )
    .unwrap();
    assert_eq!(1, res.messages.len());
    assert_eq!(
        res.messages[0],
        TransferNftInstruction { cw721_address: s("C"), token_id: s("T1"), recipient: s("S") }
    );

    // Re-running the same creation assigns id 1, not 0.
    let res = execute(&mut state, s("C"), vec![], MOCK_TIME, create());
    assert!(res.is_ok());
    assert_eq!(2, query_config(&state).unwrap().escrow_id);
    assert_eq!(0, query_get_escrow(&state, 1).unwrap().canceled_timestamp);

    // Buyer pays 500 of "X" against escrow 1 priced 1000: rejected.
    let res = execute(
        &mut state,
        s("B"),
        coins(500, "X"),
        MOCK_TIME,
        ExecuteMsg::SendFunds { escrow_id: 1 },
    )
    .unwrap_err();
    assert_eq!(res, ContractError::InsufficientFund {});

    // Resubmitting 1000 succeeds and delivers the asset to "B".
    let res = execute(
        &mut state,
        s("B"),
        coins(1000, "X"),
        MOCK_TIME,
        ExecuteMsg::SendFunds { escrow_id: 1 },
    )
    .unwrap();
    assert_eq!(
        res.messages[0],
        TransferNftInstruction { cw721_address: s("C"), token_id: s("T1"), recipient: s("B") }
    );
}

#[test]
fn receive_nft_reports_creation_ack() {
    let mut state = State::new();
    instantiate(&mut state, s("addr0000"), InstantiateMsg { denom: s("usei") });
    let res = execute_receive_nft(
        &mut state,
        s("nft0001"),
        MOCK_TIME,
        s("addr0000"),
        s("0001"),
        NftReceiveMsg::CreateEscrow {
            cw721_address: s("nft0001"),
            price: 1000,
            buyer: s("addr0001"),
        },
    )
    .unwrap();
    let ack = res.ack.unwrap();
    assert_eq!("0001", ack.token_id.as_str());
    assert_eq!(1000, ack.price);
    assert_eq!("addr0001", ack.buyer.as_str());
}
