use vstd::prelude::*;

use crate::asset::{copy_asset, Asset, AssetInfo};
use crate::error::ContractError;
use crate::msg::{Cw20HookMsg, InstantiateMsg};
use crate::odds::{
    bet_outcome, prediction_is_valid, prize_amount, spec_prize, spec_unwinnable, spec_wins,
    DIE_FACES,
};
use crate::state::{Bet, State};

verus! {

/// The instruction that settlement hands to the host for dispatch: the stake
/// goes to the treasury, tagged with the player and the payout owed.
#[derive(Debug, Clone, PartialEq, Eq)]
pub enum TransferMsg {
    /// Native currency sent to the treasury along with the settlement payload.
    Native {
        house_contract: String,
        denom: String,
        amount: u128,
        player: String,
        payout: u128,
    },
    /// A send-with-payload executed by the token contract, naming the
    /// treasury as recipient and carrying the settlement payload.
    Token {
        token_contract: String,
        house_contract: String,
        amount: u128,
        player: String,
        payout: u128,
    },
}

/// What the oracle is asked for to settle a wager: a draw in `[0, bound)`
/// for the placement height, seeded with the player's identity.
#[derive(Debug, Clone, PartialEq, Eq)]
pub struct RandomRequest {
    pub height: u64,
    pub seed: String,
    pub bound: u64,
}

/// A successful settlement: the closed wager, to be stored, and the transfer
/// instruction, to be dispatched.
#[derive(Debug, Clone, PartialEq, Eq)]
pub struct Settlement {
    pub bet: Bet,
    pub transfer: TransferMsg,
}

/// Whether `st` is the configuration of a new instance created by `sender`:
/// the creator governs it, and each absent address is empty.
pub open spec fn spec_instantiated(st: State, sender: String, msg: InstantiateMsg) -> bool {
    &&& st.gov_contract == sender
    &&& match msg.house_contract {
        Some(h) => st.house_contract == h,
        None => st.house_contract@ == Seq::<char>::empty(),
    }
    &&& match msg.random_contract {
        Some(x) => st.random_contract == x,
        None => st.random_contract@ == Seq::<char>::empty(),
    }
    &&& st.fee == match msg.fee {
        Some(f) => f,
        None => 0,
    }
}

/// The configuration with each given field replaced.
pub open spec fn spec_update_state(
    st: State,
    gov_contract: Option<String>,
    house_contract: Option<String>,
    random_contract: Option<String>,
    fee: Option<u128>,
) -> State {
    State {
        gov_contract: match gov_contract {
            Some(g) => g,
            None => st.gov_contract,
        },
        house_contract: match house_contract {
            Some(h) => h,
            None => st.house_contract,
        },
        random_contract: match random_contract {
            Some(r) => r,
            None => st.random_contract,
        },
        fee: match fee {
            Some(f) => f,
            None => st.fee,
        },
    }
}

/// Placing a wager, given the player's record `prev`: the new open wager, or
/// the reason it is refused.
pub open spec fn spec_place(
    prev: Option<Bet>,
    bet_asset: Asset,
    player: String,
    prediction: u8,
    over: bool,
    height: u64,
) -> Result<Bet, ContractError> {
    if spec_unwinnable(prediction, over) {
        Err(ContractError::InvalidPrediction)
    } else if prev is Some && prev.unwrap().is_open() {
        Err(ContractError::AlreadyOpen)
    } else {
        Ok(
            Bet {
                player,
                bet_asset,
                prediction,
                over,
                block_height: height,
                lucky_number: None,
                result: None,
                prize_amount: None,
            },
        )
    }
}

/// The checks before a draw, in order: the wager exists, the height has
/// moved past placement, and the wager is still open.
pub open spec fn spec_settle_check(prev: Option<Bet>, height: u64) -> Result<Bet, ContractError> {
    match prev {
        None => Err(ContractError::NotFound),
        Some(b) => if height <= b.block_height {
            Err(ContractError::TooSoon)
        } else if !b.is_open() {
            Err(ContractError::AlreadySettled)
        } else {
            Ok(b)
        },
    }
}

/// The wager closed against the draw `lucky` with the given payout.
pub open spec fn spec_close(b: Bet, lucky: u8, payout: u128) -> Bet {
    Bet {
        player: b.player,
        bet_asset: b.bet_asset,
        prediction: b.prediction,
        over: b.over,
        block_height: b.block_height,
        lucky_number: Some(lucky),
        result: Some(spec_wins(b.prediction, b.over, lucky)),
        prize_amount: Some(payout),
    }
}

/// The transfer that settles `bet` through the treasury `house`.
pub open spec fn spec_transfer(house: String, bet: Bet, payout: u128) -> TransferMsg {
    match bet.bet_asset.info {
        AssetInfo::NativeToken { denom } => TransferMsg::Native {
            house_contract: house,
            denom,
            amount: bet.bet_asset.amount,
            player: bet.player,
            payout,
        },
        AssetInfo::Token { contract_addr } => TransferMsg::Token {
            token_contract: contract_addr,
            house_contract: house,
            amount: bet.bet_asset.amount,
            player: bet.player,
            payout,
        },
    }
}

/// Settling the player's record `prev` at `height`, given the oracle's answer
/// `draw`: the closed wager and its transfer, or the reason it is refused.
pub open spec fn spec_settle(prev: Option<Bet>, height: u64, house: String, draw: Option<u64>) -> Result<
    Settlement,
    ContractError,
> {
    match spec_settle_check(prev, height) {
        Err(e) => Err(e),
        Ok(b) => match draw {
            None => Err(ContractError::OracleUnavailable),
            Some(n) => if n >= 100 {
                Err(ContractError::OracleUnavailable)
            } else {
                let lucky = n as u8;
                let p = spec_prize(b.bet_asset.amount, b.prediction, b.over, lucky);
                if p > u128::MAX {
                    Err(ContractError::PayoutOverflow)
                } else {
                    Ok(
                        Settlement {
                            bet: spec_close(b, lucky, p as u128),
                            transfer: spec_transfer(house, b, p as u128),
                        },
                    )
                }
            },
        },
    }
}

/// The configuration of a new instance: `sender` governs it, and absent
/// fields are empty (no fee).
pub fn instantiate(sender: String, msg: InstantiateMsg) -> (r: State)
    ensures
        spec_instantiated(r, sender, msg),
{
    let house_contract = match msg.house_contract {
        Some(h) => h,
        None => String::new(),
    };
    let random_contract = match msg.random_contract {
        Some(r) => r,
        None => String::new(),
    };
    let fee: u128 = match msg.fee {
        Some(f) => f,
        None => 0,
    };
    State { gov_contract: sender, house_contract, random_contract, fee }
}

/// Changes the configuration: only the governance identity may, and each
/// absent field keeps its value. A new governance identity takes over in the
/// same call.
pub fn execute_update_state(
    state: &mut State,
    sender: &String,
    gov_contract: Option<String>,
    house_contract: Option<String>,
    random_contract: Option<String>,
    fee: Option<u128>,
) -> (r: Result<(), ContractError>)
    ensures
        sender@ != old(state).gov_contract@ ==> r == Err::<(), ContractError>(
            ContractError::Unauthorized,
        ) && *final(state) == *old(state),
        sender@ == old(state).gov_contract@ ==> r == Ok::<(), ContractError>(()) && *final(state)
            == spec_update_state(*old(state), gov_contract, house_contract, random_contract, fee),
{
    if !(state.gov_contract == *sender) {
        return Err(ContractError::Unauthorized);
    }
    if let Some(g) = gov_contract {
        state.gov_contract = g;
    }
    if let Some(h) = house_contract {
        state.house_contract = h;
    }
    if let Some(x) = random_contract {
        state.random_contract = x;
    }
    if let Some(f) = fee {
        state.fee = f;
    }
    Ok(())
}

/// Places a wager for `player`, whose current record is `prev`. Refused with
/// `InvalidPrediction` for a prediction outside `[0, 99]` or one no draw can
/// beat (99 over, 0 under), then with `AlreadyOpen` while `prev` is open. A
/// settled record is replaced.
pub fn execute_bet(
    prev: &Option<Bet>,
    bet_asset: Asset,
    player: String,
    prediction: u8,
    over: bool,
    height: u64,
) -> (r: Result<Bet, ContractError>)
    ensures
        r == spec_place(*prev, bet_asset, player, prediction, over, height),
        !spec_unwinnable(prediction, over) && prev is Some && prev.unwrap().is_open() ==> r == Err::<
            Bet,
            ContractError,
        >(ContractError::AlreadyOpen),
        r is Ok ==> r.unwrap().is_open(),
{
    if !prediction_is_valid(prediction, over) {
        return Err(ContractError::InvalidPrediction);
    }
    if let Some(b) = prev {
        if b.result.is_none() {
            return Err(ContractError::AlreadyOpen);
        }
    }
    Ok(
        Bet {
            player,
            bet_asset,
            prediction,
            over,
            block_height: height,
            lucky_number: None,
            result: None,
            prize_amount: None,
        },
    )
}

/// Places a wager staked with `amount` tokens of `token_contract`, sent by
/// `sender` with the payload `hook`.
pub fn receive_cw20(
    prev: &Option<Bet>,
    token_contract: String,
    sender: String,
    amount: u128,
    hook: Cw20HookMsg,
    height: u64,
) -> (r: Result<Bet, ContractError>)
    ensures
        r == (match hook {
            Cw20HookMsg::Bet { prediction, over } => spec_place(
                *prev,
                Asset { info: AssetInfo::Token { contract_addr: token_contract }, amount },
                sender,
                prediction,
                over,
                height,
            ),
        }),
{
    match hook {
        Cw20HookMsg::Bet { prediction, over } => {
            let asset = Asset { info: AssetInfo::Token { contract_addr: token_contract }, amount };
            execute_bet(prev, asset, sender, prediction, over, height)
        },
    }
}

/// The transfer instruction that settles `bet` with `payout` through the
/// treasury `house`, in the shape the stake's asset kind calls for.
pub fn build_transfer(house: &String, bet: &Bet, payout: u128) -> (r: TransferMsg)
    ensures
        r == spec_transfer(*house, *bet, payout),
{
    match &bet.bet_asset.info {
        AssetInfo::NativeToken { denom } => TransferMsg::Native {
            house_contract: house.clone(),
            denom: denom.clone(),
            amount: bet.bet_asset.amount,
            player: bet.player.clone(),
            payout,
        },
        AssetInfo::Token { contract_addr } => TransferMsg::Token {
            token_contract: contract_addr.clone(),
            house_contract: house.clone(),
            amount: bet.bet_asset.amount,
            player: bet.player.clone(),
            payout,
        },
    }
}

/// Checks that the record `prev` may be settled at `height` and says what to
/// ask the oracle for: a draw in `[0, 100)` for the placement height, seeded
/// with the player's identity.
pub fn settle_request(prev: &Option<Bet>, height: u64) -> (r: Result<RandomRequest, ContractError>)
    ensures
        match spec_settle_check(*prev, height) {
            Err(e) => r == Err::<RandomRequest, ContractError>(e),
            Ok(b) => r == Ok::<RandomRequest, ContractError>(
                RandomRequest { height: b.block_height, seed: b.player, bound: 100 },
            ),
        },
{
    match prev {
        None => Err(ContractError::NotFound),
        Some(b) => {
            if b.block_height >= height {
                Err(ContractError::TooSoon)
            } else if b.result.is_some() {
                Err(ContractError::AlreadySettled)
            } else {
                Ok(RandomRequest { height: b.block_height, seed: b.player.clone(), bound: DIE_FACES })
            }
        },
    }
}

/// Settles the record `prev` at `height` with the oracle's answer `draw`.
/// Refused, in order, with `NotFound`, `TooSoon` (at or before the placement
/// height) and `AlreadySettled`; then with `OracleUnavailable` when there is
/// no draw in `[0, 100)`, and `PayoutOverflow` when the payout does not fit.
/// Otherwise the wager is closed with the draw, its outcome and its payout,
/// and the transfer to the treasury is built from it.
pub fn execute_settle(prev: Option<Bet>, height: u64, house: &String, draw: Option<u64>) -> (r:
    Result<Settlement, ContractError>)
    ensures
        r == spec_settle(prev, height, *house, draw),
        r is Ok ==> r.unwrap().bet.is_settled(),
{
    let mut bet = match prev {
        None => {
            return Err(ContractError::NotFound);
        },
        Some(b) => b,
    };
    if bet.block_height >= height {
        return Err(ContractError::TooSoon);
    }
    if bet.result.is_some() {
        return Err(ContractError::AlreadySettled);
    }
    let lucky: u8 = match draw {
        None => {
            return Err(ContractError::OracleUnavailable);
        },
        Some(n) => {
            if n >= DIE_FACES {
                return Err(ContractError::OracleUnavailable);
            }
            n as u8
        },
    };
    let win = bet_outcome(bet.prediction, bet.over, lucky);
    let payout = match prize_amount(bet.bet_asset.amount, bet.prediction, bet.over, lucky) {
        None => {
            return Err(ContractError::PayoutOverflow);
        },
        Some(p) => p,
    };
    let transfer = build_transfer(house, &bet, payout);
    bet.lucky_number = Some(lucky);
    bet.result = Some(win);
    bet.prize_amount = Some(payout);
    Ok(Settlement { bet, transfer })
}

} // verus!
