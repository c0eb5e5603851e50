//! Properties of the wager lifecycle that relate several calls, proved over
//! the specifications that the executable functions are held to.
use vstd::prelude::*;

use crate::asset::Asset;
use crate::contract::{spec_place, spec_settle};
use crate::error::ContractError;
use crate::ledger::spec_lookup;
use crate::odds::{spec_divisor, spec_prize, spec_unwinnable, spec_wins};
use crate::state::Bet;

verus! {

/// While a player's wager is open, no valid placement for that player goes
/// through: it is refused with `AlreadyOpen`.
pub proof fn lemma_open_wager_blocks_placement(
    records: Map<Seq<char>, Bet>,
    bet_asset: Asset,
    player: String,
    prediction: u8,
    over: bool,
    height: u64,
)
    requires
        records.contains_key(player@),
        records[player@].is_open(),
        !spec_unwinnable(prediction, over),
    ensures
        spec_place(spec_lookup(records, player@), bet_asset, player, prediction, over, height)
            == Err::<Bet, ContractError>(ContractError::AlreadyOpen),
{
}

/// A prediction that no draw can beat (99 over, 0 under) is refused at
/// placement, whatever is on file.
pub proof fn lemma_boundary_predictions_refused(
    prev: Option<Bet>,
    bet_asset: Asset,
    player: String,
    height: u64,
)
    ensures
        spec_place(prev, bet_asset, player, 99, true, height) == Err::<Bet, ContractError>(
            ContractError::InvalidPrediction,
        ),
        spec_place(prev, bet_asset, player, 0, false, height) == Err::<Bet, ContractError>(
            ContractError::InvalidPrediction,
        ),
{
}

/// Settling with no wager on file is refused with `NotFound`; settling at or
/// before the placement height is refused with `TooSoon`.
pub proof fn lemma_settle_refusals(prev: Option<Bet>, height: u64, house: String, draw: Option<u64>)
    ensures
        prev is None ==> spec_settle(prev, height, house, draw) == Err::<
            crate::contract::Settlement,
            ContractError,
        >(ContractError::NotFound),
        prev is Some && height <= prev.unwrap().block_height ==> spec_settle(
            prev,
            height,
            house,
            draw,
        ) == Err::<crate::contract::Settlement, ContractError>(ContractError::TooSoon),
{
}

/// After a successful settlement, the wager carries its draw, its outcome
/// and its payout, and no later settlement changes them: one after the
/// placement height is refused with `AlreadySettled`, any other with
/// `TooSoon`.
pub proof fn lemma_settled_is_terminal(
    prev: Option<Bet>,
    height: u64,
    house: String,
    draw: Option<u64>,
    later_height: u64,
    later_house: String,
    later_draw: Option<u64>,
)
    requires
        spec_settle(prev, height, house, draw) is Ok,
    ensures
        ({
            let closed = spec_settle(prev, height, house, draw).unwrap().bet;
            &&& closed.is_settled()
            &&& later_height > closed.block_height ==> spec_settle(
                Some(closed),
                later_height,
                later_house,
                later_draw,
            ) == Err::<crate::contract::Settlement, ContractError>(ContractError::AlreadySettled)
            &&& later_height <= closed.block_height ==> spec_settle(
                Some(closed),
                later_height,
                later_house,
                later_draw,
            ) == Err::<crate::contract::Settlement, ContractError>(ContractError::TooSoon)
        }),
{
}

/// Settling a wager twice, the second time no earlier than the first, is
/// refused with `AlreadySettled`.
pub proof fn lemma_settle_twice(
    prev: Option<Bet>,
    height: u64,
    house: String,
    draw: Option<u64>,
    again_height: u64,
    again_house: String,
    again_draw: Option<u64>,
)
    requires
        spec_settle(prev, height, house, draw) is Ok,
        again_height >= height,
    ensures
        spec_settle(
            Some(spec_settle(prev, height, house, draw).unwrap().bet),
            again_height,
            again_house,
            again_draw,
        ) == Err::<crate::contract::Settlement, ContractError>(ContractError::AlreadySettled),
{
}

/// A settled wager records the draw it was settled with; it wins over iff
/// the draw exceeds the prediction and under iff the draw falls short of it,
/// so a draw equal to the prediction never wins; a loss pays exactly zero and
/// a win pays exactly `stake * 100 / (99 - prediction)` over and
/// `stake * 100 / prediction` under, rounded down.
pub proof fn lemma_settlement_odds(prev: Option<Bet>, height: u64, house: String, draw: Option<u64>)
    requires
        spec_settle(prev, height, house, draw) is Ok,
    ensures
        ({
            let b = prev.unwrap();
            let closed = spec_settle(prev, height, house, draw).unwrap().bet;
            let lucky = closed.lucky_number.unwrap();
            let win = closed.result.unwrap();
            let payout = closed.prize_amount.unwrap() as int;
            &&& draw == Some(lucky as u64)
            &&& lucky < 100
            &&& b.over ==> (win <==> b.prediction < lucky)
            &&& !b.over ==> (win <==> b.prediction > lucky)
            &&& b.prediction == lucky ==> !win
            &&& !win ==> payout == 0
            &&& win && b.over ==> payout == (b.bet_asset.amount as int * 100) / (99
                - b.prediction)
            &&& win && !b.over ==> payout == (b.bet_asset.amount as int * 100) / (
            b.prediction as int)
        }),
{
    let b = prev.unwrap();
    let lucky = draw.unwrap() as u8;
    assert(spec_wins(b.prediction, b.over, lucky) ==> spec_prize(
        b.bet_asset.amount,
        b.prediction,
        b.over,
        lucky,
    ) == (b.bet_asset.amount as int * 100) / spec_divisor(b.prediction, b.over));
}

} // verus!
