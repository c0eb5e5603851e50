use vstd::prelude::*;

use crate::asset::Asset;

verus! {

/// The contract's configuration.
#[derive(Debug, Clone, PartialEq, Eq)]
pub struct State {
    /// The identity allowed to change this configuration.
    pub gov_contract: String,
    /// The treasury that receives settled stakes and pays out prizes.
    pub house_contract: String,
    /// The randomness oracle.
    pub random_contract: String,
    /// Fee rate as a fixed-point number with 18 decimals (`10^18` is 1.0).
    /// Advisory: settlement does not use it.
    pub fee: u128,
}

/// One player's wager, open while `result` is `None`.
#[derive(Debug, Clone, PartialEq, Eq)]
pub struct Bet {
    pub player: String,
    pub bet_asset: Asset,
    /// The threshold, in `[0, 99]`.
    pub prediction: u8,
    /// `true` bets that the draw exceeds the threshold, `false` that it falls short.
    pub over: bool,
    /// Block height at placement.
    pub block_height: u64,
    /// The draw, set at settlement.
    pub lucky_number: Option<u8>,
    /// Win (`true`) or loss, set at settlement.
    pub result: Option<bool>,
    /// The amount owed to the player, set at settlement.
    pub prize_amount: Option<u128>,
}

impl Bet {
    /// An open wager has not been settled.
    pub open spec fn is_open(&self) -> bool {
        self.result.is_none()
    }

    /// A settled wager carries its draw, its outcome and its payout.
    pub open spec fn is_settled(&self) -> bool {
        &&& self.lucky_number.is_some()
        &&& self.result.is_some()
        &&& self.prize_amount.is_some()
    }
}

} // verus!

verus! {

impl Bet {
    /// A copy of the wager that is provably equal to it.
    pub fn duplicate(&self) -> (r: Bet)
        ensures
            r == *self,
    {
        Bet {
            player: self.player.clone(),
            bet_asset: crate::asset::copy_asset(&self.bet_asset),
            prediction: self.prediction,
            over: self.over,
            block_height: self.block_height,
            lucky_number: self.lucky_number,
            result: self.result,
            prize_amount: self.prize_amount,
        }
    }
}

} // verus!
