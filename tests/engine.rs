use otcer::asset::{AssetKind, Transfer, build_outbound, is_valid_bundle, is_valid_schedule};
use otcer::engine::{
    ContractError, ExecuteMsg, InstantiateMsg, MessageInfo, QueryMsg, execute, instantiate, query,
};
use otcer::funds::{check_funds, total_of};
use otcer::register::RegistryError;
use otcer::state::{FeeTiming, State, Status};

fn native(denom: &str, amount: u128) -> AssetKind {
    AssetKind::NativeAmount { denom: denom.to_string(), amount }
}

fn fungible(contract: &str, amount: u128) -> AssetKind {
    AssetKind::FungibleAmount { contract: contract.to_string(), amount }
}

fn nft(contract: &str, token_id: &str) -> AssetKind {
    AssetKind::NonFungibleUnit { contract: contract.to_string(), token_id: token_id.to_string() }
}

fn info(sender: &str, funds: Vec<AssetKind>) -> MessageInfo {
    MessageInfo { sender: sender.to_string(), funds }
}

fn to(recipient: &str, asset: AssetKind) -> Transfer {
    Transfer { recipient: recipient.to_string(), asset }
}

fn setup(timing: FeeTiming) -> State {
    instantiate(InstantiateMsg {
        owner: "owner".to_string(),
        fee: vec![native("uluna", 100)],
        fee_collector: "fee_collector".to_string(),
        fee_timing: timing,
    })
    .unwrap()
}

fn create(
    state: &mut State,
    sender: &str,
    funds: Vec<AssetKind>,
    executor: Option<&str>,
    offer: Vec<AssetKind>,
    ask: Vec<AssetKind>,
) -> Result<otcer::engine::Response, ContractError> {
    execute(
        state,
        &info(sender, funds),
        ExecuteMsg::CreateOtc { executor: executor.map(|e| e.to_string()), offer, ask },
    )
}

#[test]
fn scenario_native_offer_for_fungible_ask() {
    let mut state = setup(FeeTiming::OnCreate);
    let created = create(
        &mut state,
        "creator",
        vec![native("uluna", 200)],
        None,
        vec![native("uluna", 100)],
        vec![fungible("token_t", 1)],
    )
    .unwrap();
    assert_eq!(created.position_id, 1);
    assert_eq!(created.transfers, vec![to("fee_collector", native("uluna", 100))]);

    let settled = execute(
        &mut state,
        &info("executor", vec![fungible("token_t", 1)]),
        ExecuteMsg::ExecuteOtc { id: 1 },
    )
    .unwrap();
    assert_eq!(settled.position_id, 1);
    assert_eq!(
        settled.transfers,
        vec![to("executor", native("uluna", 100)), to("creator", fungible("token_t", 1))]
    );
    let p = query(&state, QueryMsg::Position { id: 1 }).unwrap();
    assert_eq!(p.status, Status::Executed);
}

#[test]
fn scenario_fee_charged_on_execution() {
    let mut state = setup(FeeTiming::OnExecute);
    let created = create(
        &mut state,
        "creator",
        vec![native("uluna", 100)],
        None,
        vec![native("uluna", 100)],
        vec![fungible("token_t", 1)],
    )
    .unwrap();
    assert!(created.transfers.is_empty());
    let short = execute(
        &mut state,
        &info("executor", vec![fungible("token_t", 1)]),
        ExecuteMsg::ExecuteOtc { id: 1 },
    );
    assert_eq!(short.unwrap_err(), ContractError::FundsMismatch);
    let settled = execute(
        &mut state,
        &info("executor", vec![native("uluna", 100), fungible("token_t", 1)]),
        ExecuteMsg::ExecuteOtc { id: 1 },
    )
    .unwrap();
    assert_eq!(
        settled.transfers,
        vec![
            to("executor", native("uluna", 100)),
            to("creator", fungible("token_t", 1)),
            to("fee_collector", native("uluna", 100)),
        ]
    );
}

#[test]
fn create_with_empty_offer_is_invalid() {
    let mut state = setup(FeeTiming::OnCreate);
    let r = create(&mut state, "creator", vec![native("uluna", 100)], None, vec![], vec![
        fungible("token_t", 1),
    ]);
    assert_eq!(r.unwrap_err(), ContractError::InvalidBundle);
    assert!(state.positions.is_empty());
}

#[test]
fn create_with_empty_ask_is_invalid() {
    let mut state = setup(FeeTiming::OnCreate);
    let r = create(
        &mut state,
        "creator",
        vec![native("uluna", 200)],
        None,
        vec![native("uluna", 100)],
        vec![],
    );
    assert_eq!(r.unwrap_err(), ContractError::InvalidBundle);
}

#[test]
fn create_with_duplicate_or_zero_item_is_invalid() {
    let mut state = setup(FeeTiming::OnCreate);
    let dup = create(
        &mut state,
        "creator",
        vec![native("uluna", 100), nft("punks", "7"), nft("punks", "7")],
        None,
        vec![nft("punks", "7"), nft("punks", "7")],
        vec![fungible("token_t", 1)],
    );
    assert_eq!(dup.unwrap_err(), ContractError::InvalidBundle);
    let zero = create(
        &mut state,
        "creator",
        vec![native("uluna", 100)],
        None,
        vec![native("uluna", 100)],
        vec![fungible("token_t", 0)],
    );
    assert_eq!(zero.unwrap_err(), ContractError::InvalidBundle);
    assert!(state.positions.is_empty());
}

#[test]
fn execute_unknown_id_is_not_found() {
    let mut state = setup(FeeTiming::OnCreate);
    let r = execute(&mut state, &info("executor", vec![]), ExecuteMsg::ExecuteOtc { id: 9999 });
    assert_eq!(r.unwrap_err(), ContractError::PositionNotFound);
    let z = execute(&mut state, &info("executor", vec![]), ExecuteMsg::ExecuteOtc { id: 0 });
    assert_eq!(z.unwrap_err(), ContractError::PositionNotFound);
}

#[test]
fn query_unknown_id_is_not_found() {
    let state = setup(FeeTiming::OnCreate);
    assert_eq!(query(&state, QueryMsg::Position { id: 1 }).unwrap_err(), ContractError::PositionNotFound);
    assert!(state.position(1).is_none());
}

#[test]
fn create_then_query_returns_active_position() {
    let mut state = setup(FeeTiming::OnCreate);
    let offer = vec![native("uluna", 5), nft("punks", "1"), nft("punks", "2")];
    let ask = vec![fungible("token_t", 30), native("uusd", 9)];
    let r = create(
        &mut state,
        "creator",
        vec![nft("punks", "2"), native("uluna", 105), nft("punks", "1")],
        Some("bob"),
        offer.clone(),
        ask.clone(),
    )
    .unwrap();
    let p = query(&state, QueryMsg::Position { id: r.position_id }).unwrap();
    assert_eq!(p.id, 1);
    assert_eq!(p.creator, "creator");
    assert_eq!(p.executor, Some("bob".to_string()));
    assert_eq!(p.offer, offer);
    assert_eq!(p.ask, ask);
    assert_eq!(p.status, Status::Active);
}

#[test]
fn identifiers_are_sequential() {
    let mut state = setup(FeeTiming::OnExecute);
    for expected in 1..=3u64 {
        let r = create(
            &mut state,
            "creator",
            vec![native("uluna", 10)],
            None,
            vec![native("uluna", 10)],
            vec![fungible("token_t", 1)],
        )
        .unwrap();
        assert_eq!(r.position_id, expected);
    }
    assert_eq!(state.position(3).unwrap().id, 3);
}

#[test]
fn second_execution_is_not_active() {
    let mut state = setup(FeeTiming::OnCreate);
    create(
        &mut state,
        "creator",
        vec![native("uluna", 200)],
        None,
        vec![native("uluna", 100)],
        vec![fungible("token_t", 1)],
    )
    .unwrap();
    let ok = execute(
        &mut state,
        &info("executor", vec![fungible("token_t", 1)]),
        ExecuteMsg::ExecuteOtc { id: 1 },
    );
    assert!(ok.is_ok());
    let again = execute(
        &mut state,
        &info("creator", vec![fungible("token_t", 1)]),
        ExecuteMsg::ExecuteOtc { id: 1 },
    );
    assert_eq!(again.unwrap_err(), ContractError::PositionNotActive);
}

#[test]
fn reserved_position_refuses_other_callers() {
    let mut state = setup(FeeTiming::OnCreate);
    create(
        &mut state,
        "creator",
        vec![native("uluna", 200)],
        Some("bob"),
        vec![native("uluna", 100)],
        vec![fungible("token_t", 1)],
    )
    .unwrap();
    for caller in ["alice", "creator", "bobby"] {
        let r = execute(
            &mut state,
            &info(caller, vec![fungible("token_t", 1)]),
            ExecuteMsg::ExecuteOtc { id: 1 },
        );
        assert_eq!(r.unwrap_err(), ContractError::Unauthorized);
    }
    assert_eq!(state.position(1).unwrap().status, Status::Active);
    let r = execute(
        &mut state,
        &info("bob", vec![fungible("token_t", 1)]),
        ExecuteMsg::ExecuteOtc { id: 1 },
    );
    assert!(r.is_ok());
}

#[test]
fn creator_may_execute_unreserved_position() {
    let mut state = setup(FeeTiming::OnCreate);
    create(
        &mut state,
        "creator",
        vec![native("uluna", 200)],
        None,
        vec![native("uluna", 100)],
        vec![fungible("token_t", 1)],
    )
    .unwrap();
    let r = execute(
        &mut state,
        &info("creator", vec![fungible("token_t", 1)]),
        ExecuteMsg::ExecuteOtc { id: 1 },
    );
    assert!(r.is_ok());
}

#[test]
fn funds_off_by_one_unit_mismatch() {
    let mut state = setup(FeeTiming::OnCreate);
    for funds in [
        vec![native("uluna", 199)],
        vec![native("uluna", 201)],
        vec![native("uluna", 200), native("uusd", 1)],
        vec![native("uluna", 100)],
    ] {
        let r = create(
            &mut state,
            "creator",
            funds,
            None,
            vec![native("uluna", 100)],
            vec![fungible("token_t", 2)],
        );
        assert_eq!(r.unwrap_err(), ContractError::FundsMismatch);
    }
    assert!(state.positions.is_empty());
    create(
        &mut state,
        "creator",
        vec![native("uluna", 100), native("uluna", 100)],
        None,
        vec![native("uluna", 100)],
        vec![fungible("token_t", 2)],
    )
    .unwrap();
    for funds in [vec![fungible("token_t", 1)], vec![fungible("token_t", 3)], vec![fungible("other", 2)]] {
        let r = execute(&mut state, &info("executor", funds), ExecuteMsg::ExecuteOtc { id: 1 });
        assert_eq!(r.unwrap_err(), ContractError::FundsMismatch);
    }
    assert_eq!(state.position(1).unwrap().status, Status::Active);
}

#[test]
fn escrowed_assets_are_released_unchanged() {
    let mut state = setup(FeeTiming::OnCreate);
    let offer = vec![nft("punks", "7"), fungible("token_a", 40), native("uatom", 3)];
    let ask = vec![native("uusd", 1000), nft("apes", "1")];
    create(
        &mut state,
        "creator",
        vec![native("uluna", 100), native("uatom", 3), fungible("token_a", 40), nft("punks", "7")],
        None,
        offer.clone(),
        ask.clone(),
    )
    .unwrap();
    let r = execute(
        &mut state,
        &info("taker", vec![nft("apes", "1"), native("uusd", 1000)]),
        ExecuteMsg::ExecuteOtc { id: 1 },
    )
    .unwrap();
    let released: Vec<AssetKind> = r.transfers[..3].iter().map(|t| t.asset.clone()).collect();
    assert_eq!(released, offer);
    assert!(r.transfers[..3].iter().all(|t| t.recipient == "taker"));
    let delivered: Vec<AssetKind> = r.transfers[3..].iter().map(|t| t.asset.clone()).collect();
    assert_eq!(delivered, ask);
    assert!(r.transfers[3..].iter().all(|t| t.recipient == "creator"));
}

#[test]
fn instantiate_rejects_bad_fee_schedule() {
    let dup = instantiate(InstantiateMsg {
        owner: "owner".to_string(),
        fee: vec![native("uluna", 1), native("uluna", 2)],
        fee_collector: "c".to_string(),
        fee_timing: FeeTiming::OnCreate,
    });
    assert_eq!(dup.unwrap_err(), ContractError::InvalidBundle);
    let zero = instantiate(InstantiateMsg {
        owner: "owner".to_string(),
        fee: vec![native("uluna", 0)],
        fee_collector: "c".to_string(),
        fee_timing: FeeTiming::OnCreate,
    });
    assert_eq!(zero.unwrap_err(), ContractError::InvalidBundle);
    let empty = instantiate(InstantiateMsg {
        owner: "owner".to_string(),
        fee: vec![],
        fee_collector: "c".to_string(),
        fee_timing: FeeTiming::OnCreate,
    })
    .unwrap();
    assert!(empty.positions.is_empty());
    assert_eq!(empty.config.owner, "owner");
}

#[test]
fn bundle_validation() {
    assert!(is_valid_bundle(&vec![nft("punks", "1"), nft("punks", "2"), nft("apes", "1")]));
    assert!(is_valid_bundle(&vec![native("x", 1), fungible("x", 1)]));
    assert!(!is_valid_bundle(&vec![fungible("x", 1), fungible("x", 2)]));
    assert!(!is_valid_bundle(&vec![]));
    assert!(is_valid_schedule(&vec![]));
}

#[test]
fn totals_carry_past_the_word() {
    let b = vec![native("uluna", u128::MAX), fungible("uluna", 9), native("uluna", 5)];
    assert_eq!(total_of(&b, &native("uluna", 1)), (1, 4));
    assert_eq!(total_of(&b, &fungible("uluna", 1)), (0, 9));
    assert_eq!(total_of(&b, &nft("uluna", "1")), (0, 0));
}

#[test]
fn funds_compare_by_total_per_asset() {
    let a = vec![native("uluna", u128::MAX), native("uluna", 1)];
    let r = vec![native("uluna", 2), native("uluna", u128::MAX - 1)];
    assert!(check_funds(&a, &r));
    assert!(!check_funds(&a, &vec![native("uluna", u128::MAX)]));
    assert!(check_funds(&vec![nft("p", "1"), nft("p", "2")], &vec![nft("p", "2"), nft("p", "1")]));
    assert!(!check_funds(&vec![nft("p", "1")], &vec![nft("p", "2")]));
    assert!(!check_funds(&vec![fungible("t", 2)], &vec![fungible("t", 1), fungible("u", 1)]));
    assert!(check_funds(&vec![], &vec![]));
}

#[test]
fn outbound_transfer_names_recipient_and_asset() {
    let t = build_outbound(&fungible("token_t", 3), &"bob".to_string());
    assert_eq!(t, to("bob", fungible("token_t", 3)));
}

#[test]
fn registry_only_acknowledges_instantiation() {
    assert_eq!(otcer::register::instantiate(), Ok(()));
    assert_eq!(otcer::register::execute(), Err(RegistryError::Unavailable));
    assert_eq!(otcer::register::query(), Err(RegistryError::Unavailable));
    assert_eq!(otcer::register::migrate(), Err(RegistryError::Unavailable));
}

#[test]
fn well_formedness_follows_identifiers() {
    let mut state = setup(FeeTiming::OnCreate);
    assert!(state.is_well_formed());
    create(
        &mut state,
        "creator",
        vec![native("uluna", 200)],
        None,
        vec![native("uluna", 100)],
        vec![fungible("token_t", 1)],
    )
    .unwrap();
    assert!(state.is_well_formed());
    state.positions[0].id = 2;
    assert!(!state.is_well_formed());
}
