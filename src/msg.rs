use vstd::prelude::*;

verus! {

/// The payload that comes with a fungible-token transfer to this contract.
#[derive(Debug, Clone, Copy, PartialEq, Eq, Structural)]
pub enum Cw20HookMsg {
    /// Place a wager with the transferred tokens as stake.
    Bet { prediction: u8, over: bool },
}

/// Configuration of a new contract instance; absent fields take empty values.
#[derive(Debug, Clone, PartialEq, Eq)]
pub struct InstantiateMsg {
    pub house_contract: Option<String>,
    pub random_contract: Option<String>,
    /// Fee rate with 18 decimals.
    pub fee: Option<u128>,
}

} // verus!
