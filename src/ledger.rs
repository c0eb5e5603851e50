use vstd::prelude::*;

use crate::asset::Asset;
use crate::contract::{
    execute_bet, execute_settle, settle_request, spec_place, spec_settle, spec_settle_check,
    RandomRequest, TransferMsg,
};
use crate::error::ContractError;
use crate::state::Bet;

verus! {

/// The record on file for a key of a ledger's view, if any.
pub open spec fn spec_lookup(m: Map<Seq<char>, Bet>, key: Seq<char>) -> Option<Bet> {
    if m.contains_key(key) {
        Some(m[key])
    } else {
        None
    }
}

/// The wager records, one per player, keyed by the player's identity.
/// Settled records stay on file until the player places a new wager.
pub struct Ledger {
    bets: Vec<Bet>,
    records: Ghost<Map<Seq<char>, Bet>>,
}

impl View for Ledger {
    type V = Map<Seq<char>, Bet>;

    closed spec fn view(&self) -> Map<Seq<char>, Bet> {
        self.records@
    }
}

impl Ledger {
    /// The records are those of the view, each filed under its own player,
    /// one per player.
    pub closed spec fn wf(&self) -> bool {
        &&& forall|i: int|
            0 <= i < self.bets@.len() ==> #[trigger] self.records@.contains_key(
                self.bets@[i].player@,
            ) && self.records@[self.bets@[i].player@] == self.bets@[i]
        &&& forall|k: Seq<char>|
            #[trigger] self.records@.contains_key(k) ==> exists|i: int|
                0 <= i < self.bets@.len() && #[trigger] self.bets@[i].player@ == k
        &&& forall|i: int, j: int|
            0 <= i < j < self.bets@.len() ==> #[trigger] self.bets@[i].player@
                != #[trigger] self.bets@[j].player@
    }

    /// A ledger with no records.
    pub fn new() -> (r: Ledger)
        ensures
            r.wf(),
            r@ == Map::<Seq<char>, Bet>::empty(),
    {
        Ledger { bets: Vec::new(), records: Ghost(Map::empty()) }
    }

    /// Where the record of `player` stands in the list.
    fn position(&self, player: &String) -> (r: Option<usize>)
        requires
            self.wf(),
        ensures
            match r {
                Some(i) => i < self.bets@.len() && self.bets@[i as int].player@ == player@,
                None => !self@.contains_key(player@),
            },
    {
        let mut i: usize = 0;
        while i < self.bets.len()
            invariant
                self.wf(),
                i <= self.bets@.len(),
                forall|j: int| 0 <= j < i ==> #[trigger] self.bets@[j].player@ != player@,
            decreases self.bets@.len() - i,
        {
            if self.bets[i].player == *player {
                return Some(i);
            }
            i = i + 1;
        }
        None
    }

    /// The record of `player`, if one is on file.
    pub fn may_load(&self, player: &String) -> (r: Option<Bet>)
        requires
            self.wf(),
        ensures
            r == spec_lookup(self@, player@),
    {
        match self.position(player) {
            Some(i) => Some(self.bets[i].duplicate()),
            None => None,
        }
    }

    /// Files `bet` under its player, replacing any record there.
    pub fn save(&mut self, bet: Bet)
        requires
            old(self).wf(),
        ensures
            final(self).wf(),
            final(self)@ == old(self)@.insert(bet.player@, bet),
    {
        let ghost key = bet.player@;
        let ghost b = bet;
        match self.position(&bet.player) {
            Some(i) => {
                self.bets.set(i, bet);
                self.records = Ghost(self.records@.insert(key, b));
                assert forall|j: int| 0 <= j < self.bets@.len() implies #[trigger] self.bets@[j].player@
                    == old(self).bets@[j].player@ by {}
                assert forall|j: int|
                    0 <= j < self.bets@.len() implies #[trigger] self.records@.contains_key(
                    self.bets@[j].player@,
                ) && self.records@[self.bets@[j].player@] == self.bets@[j] by {
                    if j != i {
                        assert(old(self).records@.contains_key(old(self).bets@[j].player@));
                    }
                }
                assert forall|k: Seq<char>| #[trigger] self.records@.contains_key(k) implies exists|
                    j: int,
                | 0 <= j < self.bets@.len() && #[trigger] self.bets@[j].player@ == k by {
                    if k != key {
                        let j = choose|j: int|
                            0 <= j < old(self).bets@.len() && #[trigger] old(self).bets@[j].player@
                                == k;
                        assert(self.bets@[j].player@ == k);
                    } else {
                        assert(self.bets@[i as int].player@ == k);
                    }
                }
            },
            None => {
                self.bets.push(bet);
                self.records = Ghost(self.records@.insert(key, b));
                let ghost n = self.bets@.len() - 1;
                assert forall|k: Seq<char>| #[trigger] self.records@.contains_key(k) implies exists|
                    j: int,
                | 0 <= j < self.bets@.len() && #[trigger] self.bets@[j].player@ == k by {
                    if k != key {
                        let j = choose|j: int|
                            0 <= j < old(self).bets@.len() && #[trigger] old(self).bets@[j].player@
                                == k;
                        assert(self.bets@[j].player@ == k);
                    } else {
                        assert(self.bets@[n].player@ == k);
                    }
                }
                assert forall|i: int, j: int|
                    0 <= i < j < self.bets@.len() implies #[trigger] self.bets@[i].player@
                    != #[trigger] self.bets@[j].player@ by {
                    if j == n {
                        assert(old(self).records@.contains_key(old(self).bets@[i].player@));
                    }
                }
            },
        }
    }

    /// Places a wager for `player` (see `execute_bet`); a refusal leaves the
    /// ledger as it was.
    pub fn place(
        &mut self,
        bet_asset: Asset,
        player: String,
        prediction: u8,
        over: bool,
        height: u64,
    ) -> (r: Result<(), ContractError>)
        requires
            old(self).wf(),
        ensures
            final(self).wf(),
            match spec_place(
                spec_lookup(old(self)@, player@),
                bet_asset,
                player,
                prediction,
                over,
                height,
            ) {
                Ok(b) => r is Ok && final(self)@ == old(self)@.insert(player@, b),
                Err(e) => r == Err::<(), ContractError>(e) && final(self)@ == old(self)@,
            },
    {
        let prev = self.may_load(&player);
        match execute_bet(&prev, bet_asset, player, prediction, over, height) {
            Ok(b) => {
                self.save(b);
                Ok(())
            },
            Err(e) => Err(e),
        }
    }

    /// What to ask the oracle for to settle the wager of `player` at
    /// `height` (see `settle_request`).
    pub fn request(&self, player: &String, height: u64) -> (r: Result<RandomRequest, ContractError>)
        requires
            self.wf(),
        ensures
            match spec_settle_check(spec_lookup(self@, player@), height) {
                Err(e) => r == Err::<RandomRequest, ContractError>(e),
                Ok(b) => r == Ok::<RandomRequest, ContractError>(
                    RandomRequest { height: b.block_height, seed: b.player, bound: 100 },
                ),
            },
    {
        let prev = self.may_load(player);
        settle_request(&prev, height)
    }

    /// Settles the wager of `player` at `height` with the oracle's answer
    /// `draw` (see `execute_settle`): on success the closed wager replaces the
    /// open one and the transfer is returned; a refusal leaves the ledger as
    /// it was.
    pub fn settle(&mut self, player: &String, height: u64, house: &String, draw: Option<u64>) -> (r:
        Result<TransferMsg, ContractError>)
        requires
            old(self).wf(),
        ensures
            final(self).wf(),
            match spec_settle(spec_lookup(old(self)@, player@), height, *house, draw) {
                Ok(s) => r == Ok::<TransferMsg, ContractError>(s.transfer) && final(self)@ == old(
                    self,
                )@.insert(player@, s.bet),
                Err(e) => r == Err::<TransferMsg, ContractError>(e) && final(self)@ == old(self)@,
            },
    {
        let prev = self.may_load(player);
        proof {
            if prev is Some {
                assert(prev.unwrap().player@ == player@);
            }
        }
        match execute_settle(prev, height, house, draw) {
            Ok(s) => {
                self.save(s.bet);
                Ok(s.transfer)
            },
            Err(e) => Err(e),
        }
    }
}

} // verus!
