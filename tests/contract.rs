use dice::asset::{Asset, AssetInfo};
use dice::contract::{
    build_transfer, execute_bet, execute_settle, execute_update_state, instantiate, receive_cw20,
    settle_request, TransferMsg,
};
use dice::error::ContractError;
use dice::ledger::Ledger;
use dice::msg::{Cw20HookMsg, InstantiateMsg};
use dice::odds::{bet_outcome, prediction_is_valid, prize_amount};
use dice::state::Bet;

const ONE: u128 = 1_000_000_000_000_000_000;

fn native(amount: u128, denom: &str) -> Asset {
    Asset { info: AssetInfo::NativeToken { denom: denom.to_string() }, amount }
}

fn open_bet(prediction: u8, over: bool, amount: u128) -> Bet {
    Bet {
        player: "player".to_string(),
        bet_asset: native(amount, "UST"),
        prediction,
        over,
        block_height: 100,
        lucky_number: None,
        result: None,
        prize_amount: None,
    }
}

#[test]
fn proper_initialization() {
    let msg = InstantiateMsg { fee: None, house_contract: None, random_contract: None };
    let state = instantiate("creator".to_string(), msg);
    assert_eq!(0, state.fee);
    assert_eq!("creator", state.gov_contract);
    assert_eq!("", state.house_contract);
    assert_eq!("", state.random_contract);
}

#[test]
fn update_state() {
    let msg = InstantiateMsg { fee: None, house_contract: None, random_contract: None };
    let mut state = instantiate("creator".to_string(), msg);
    let res = execute_update_state(
        &mut state,
        &"creator".to_string(),
        None,
        Some("house".to_string()),
        Some("random".to_string()),
        Some(ONE),
    );
    assert_eq!(res, Ok(()));
    assert_eq!(ONE, state.fee);
    assert_eq!("house", state.house_contract);
    assert_eq!("random", state.random_contract);
    assert_eq!("creator", state.gov_contract);
}

#[test]
fn update_state_refused_for_others() {
    let msg = InstantiateMsg { fee: None, house_contract: None, random_contract: None };
    let mut state = instantiate("creator".to_string(), msg);
    let before = state.clone();
    let res = execute_update_state(
        &mut state,
        &"anyone".to_string(),
        None,
        Some("house".to_string()),
        Some("random".to_string()),
        Some(ONE),
    );
    assert_eq!(res, Err(ContractError::Unauthorized));
    assert_eq!(state, before);
}

#[test]
fn update_state_hands_over_governance() {
    let msg = InstantiateMsg { fee: Some(5), house_contract: Some("h".to_string()), random_contract: None };
    let mut state = instantiate("creator".to_string(), msg);
    let creator = "creator".to_string();
    let res = execute_update_state(&mut state, &creator, Some("council".to_string()), None, None, None);
    assert_eq!(res, Ok(()));
    assert_eq!("council", state.gov_contract);
    assert_eq!("h", state.house_contract);
    assert_eq!(5, state.fee);
    let res = execute_update_state(&mut state, &creator, None, None, None, Some(7));
    assert_eq!(res, Err(ContractError::Unauthorized));
    let res = execute_update_state(&mut state, &"council".to_string(), None, None, None, Some(7));
    assert_eq!(res, Ok(()));
    assert_eq!(7, state.fee);
}

#[test]
fn bet() {
    let mut ledger = Ledger::new();
    let player = "player".to_string();
    let res = ledger.place(native(20000, "UST"), player.clone(), 37, true, 12345);
    assert_eq!(res, Ok(()));
    let res = ledger.place(native(20000, "UST"), player.clone(), 37, true, 12345);
    match res {
        Err(_) => {}
        _ => panic!("Must return error"),
    }
    let bet = ledger.may_load(&player).unwrap();
    assert_eq!(bet.bet_asset.amount, 20000u128);
    assert_eq!(bet.over, true);
    assert_eq!(bet.block_height, 12345);
    assert_eq!(bet.result.is_none(), true);
    assert_eq!(bet.player, "player");
    assert_eq!(bet.lucky_number.is_none(), true);

    let request = ledger.request(&player, 12346).unwrap();
    assert_eq!(request.height, 12345);
    assert_eq!(request.seed, "player");
    assert_eq!(request.bound, 100);
    let house = "house".to_string();
    let _transfer = ledger.settle(&player, 12346, &house, Some(50)).unwrap();

    let bet = ledger.may_load(&player).unwrap();
    assert_eq!(bet.bet_asset.amount, 20000u128);
    assert_eq!(bet.over, true);
    assert_eq!(bet.block_height, 12345);
    assert_eq!(bet.result.is_some(), true);
    assert_eq!(bet.result.unwrap(), true);
    assert_eq!(bet.player, "player");
    assert_eq!(bet.lucky_number.is_some(), true);

    let res = ledger.settle(&player, 12346, &house, Some(50));
    match res {
        Err(_) => {}
        _ => panic!("Must return error"),
    }
}

#[test]
fn over_wins_with_odds_and_becomes_terminal() {
    let mut ledger = Ledger::new();
    let player = "player".to_string();
    let house = "house".to_string();
    assert_eq!(ledger.place(native(20000, "UST"), player.clone(), 37, true, 10), Ok(()));
    assert_eq!(
        ledger.place(native(20000, "UST"), player.clone(), 37, true, 10),
        Err(ContractError::AlreadyOpen)
    );
    let transfer = ledger.settle(&player, 11, &house, Some(50)).unwrap();
    assert_eq!(
        transfer,
        TransferMsg::Native {
            house_contract: "house".to_string(),
            denom: "UST".to_string(),
            amount: 20000,
            player: "player".to_string(),
            payout: 32258,
        }
    );
    let bet = ledger.may_load(&player).unwrap();
    assert_eq!(bet.result, Some(true));
    assert_eq!(bet.lucky_number, Some(50));
    assert_eq!(bet.prize_amount, Some(32258));
    assert_eq!(ledger.settle(&player, 12, &house, Some(60)), Err(ContractError::AlreadySettled));
    assert_eq!(ledger.may_load(&player).unwrap(), bet);
}

#[test]
fn under_wins_with_odds() {
    let house = "house".to_string();
    let s = execute_settle(Some(open_bet(80, false, 1000)), 101, &house, Some(10)).unwrap();
    assert_eq!(s.bet.result, Some(true));
    assert_eq!(s.bet.lucky_number, Some(10));
    assert_eq!(s.bet.prize_amount, Some(1250));
}

#[test]
fn boundary_predictions_refused_at_placement() {
    let player = "player".to_string();
    assert_eq!(
        execute_bet(&None, native(1000, "UST"), player.clone(), 99, true, 1),
        Err(ContractError::InvalidPrediction)
    );
    assert_eq!(
        execute_bet(&None, native(1000, "UST"), player.clone(), 0, false, 1),
        Err(ContractError::InvalidPrediction)
    );
    assert_eq!(
        execute_bet(&None, native(1000, "UST"), player.clone(), 100, false, 1),
        Err(ContractError::InvalidPrediction)
    );
    assert!(execute_bet(&None, native(1000, "UST"), player.clone(), 98, true, 1).is_ok());
    assert!(execute_bet(&None, native(1000, "UST"), player, 1, false, 1).is_ok());
    assert!(!prediction_is_valid(99, true));
    assert!(!prediction_is_valid(0, false));
    assert!(prediction_is_valid(0, true));
    assert!(prediction_is_valid(99, false));
}

#[test]
fn settle_refusals() {
    let house = "house".to_string();
    assert_eq!(execute_settle(None, 5, &house, Some(3)), Err(ContractError::NotFound));
    assert_eq!(settle_request(&None, 5), Err(ContractError::NotFound));
    assert_eq!(
        execute_settle(Some(open_bet(50, true, 10)), 100, &house, Some(3)),
        Err(ContractError::TooSoon)
    );
    assert_eq!(
        execute_settle(Some(open_bet(50, true, 10)), 99, &house, Some(3)),
        Err(ContractError::TooSoon)
    );
    assert_eq!(settle_request(&Some(open_bet(50, true, 10)), 100), Err(ContractError::TooSoon));
    let mut settled = open_bet(50, true, 10);
    settled.result = Some(false);
    settled.lucky_number = Some(3);
    settled.prize_amount = Some(0);
    assert_eq!(
        execute_settle(Some(settled.clone()), 101, &house, Some(3)),
        Err(ContractError::AlreadySettled)
    );
    assert_eq!(settle_request(&Some(settled), 101), Err(ContractError::AlreadySettled));
    assert_eq!(
        execute_settle(Some(open_bet(50, true, 10)), 101, &house, None),
        Err(ContractError::OracleUnavailable)
    );
    assert_eq!(
        execute_settle(Some(open_bet(50, true, 10)), 101, &house, Some(100)),
        Err(ContractError::OracleUnavailable)
    );
}

#[test]
fn settle_on_ledger_without_record() {
    let mut ledger = Ledger::new();
    let house = "house".to_string();
    assert_eq!(ledger.settle(&"nobody".to_string(), 5, &house, Some(1)), Err(ContractError::NotFound));
    assert_eq!(ledger.request(&"nobody".to_string(), 5), Err(ContractError::NotFound));
    assert_eq!(ledger.may_load(&"nobody".to_string()), None);
}

#[test]
fn payout_overflow_is_refused() {
    let house = "house".to_string();
    let b = open_bet(98, true, u128::MAX);
    assert_eq!(execute_settle(Some(b), 101, &house, Some(99)), Err(ContractError::PayoutOverflow));
    assert_eq!(prize_amount(u128::MAX, 98, true, 99), None);
    assert_eq!(prize_amount(u128::MAX / 100, 98, true, 99), Some(u128::MAX / 100 * 100));
}

#[test]
fn loss_pays_zero_and_tie_loses() {
    let house = "house".to_string();
    let s = execute_settle(Some(open_bet(50, true, 1000)), 101, &house, Some(50)).unwrap();
    assert_eq!(s.bet.result, Some(false));
    assert_eq!(s.bet.prize_amount, Some(0));
    let s = execute_settle(Some(open_bet(50, false, 1000)), 101, &house, Some(50)).unwrap();
    assert_eq!(s.bet.result, Some(false));
    assert_eq!(s.bet.prize_amount, Some(0));
    let s = execute_settle(Some(open_bet(50, false, 1000)), 101, &house, Some(70)).unwrap();
    assert_eq!(s.bet.result, Some(false));
    assert_eq!(s.bet.prize_amount, Some(0));
    assert_eq!(prize_amount(1000, 50, true, 10), Some(0));
}

#[test]
fn outcome_rule() {
    assert!(bet_outcome(37, true, 38));
    assert!(!bet_outcome(37, true, 37));
    assert!(!bet_outcome(37, true, 36));
    assert!(bet_outcome(37, false, 36));
    assert!(!bet_outcome(37, false, 37));
    assert!(!bet_outcome(37, false, 38));
}

#[test]
fn payout_formula() {
    assert_eq!(prize_amount(20000, 37, true, 50), Some(32258));
    assert_eq!(prize_amount(1000, 80, false, 10), Some(1250));
    assert_eq!(prize_amount(7, 98, true, 99), Some(700));
    assert_eq!(prize_amount(7, 1, false, 0), Some(700));
    assert_eq!(prize_amount(3, 96, true, 97), Some(100));
}

#[test]
fn token_stake_settles_through_token_contract() {
    let hook = Cw20HookMsg::Bet { prediction: 80, over: false };
    let bet = receive_cw20(&None, "token".to_string(), "player".to_string(), 1000, hook, 7).unwrap();
    assert_eq!(bet.bet_asset.info, AssetInfo::Token { contract_addr: "token".to_string() });
    assert_eq!(bet.bet_asset.amount, 1000);
    assert_eq!(bet.player, "player");
    let transfer = build_transfer(&"house".to_string(), &bet, 1250);
    assert_eq!(
        transfer,
        TransferMsg::Token {
            token_contract: "token".to_string(),
            house_contract: "house".to_string(),
            amount: 1000,
            player: "player".to_string(),
            payout: 1250,
        }
    );
    let s = execute_settle(Some(bet), 8, &"house".to_string(), Some(10)).unwrap();
    assert_eq!(s.transfer, transfer);
}

#[test]
fn settled_record_is_replaced_by_new_wager() {
    let mut ledger = Ledger::new();
    let player = "player".to_string();
    let house = "house".to_string();
    assert_eq!(ledger.place(native(500, "UST"), player.clone(), 10, true, 1), Ok(()));
    assert_eq!(ledger.place(native(900, "UST"), "other".to_string(), 10, true, 1), Ok(()));
    assert!(ledger.settle(&player, 2, &house, Some(5)).is_ok());
    assert_eq!(ledger.place(native(600, "UST"), player.clone(), 20, false, 3), Ok(()));
    let bet = ledger.may_load(&player).unwrap();
    assert_eq!(bet.bet_asset.amount, 600);
    assert_eq!(bet.prediction, 20);
    assert_eq!(bet.result, None);
    let other = ledger.may_load(&"other".to_string()).unwrap();
    assert_eq!(other.bet_asset.amount, 900);
    assert_eq!(other.result, None);
}
