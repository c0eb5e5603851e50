use vstd::prelude::*;

verus! {

/// What kind of asset a stake is made of.
#[derive(Debug, Clone, PartialEq, Eq)]
pub enum AssetInfo {
    /// The chain's native currency, by denomination.
    NativeToken { denom: String },
    /// A fungible token, by the address of its contract.
    Token { contract_addr: String },
}

/// An amount of one asset.
#[derive(Debug, Clone, PartialEq, Eq)]
pub struct Asset {
    pub info: AssetInfo,
    pub amount: u128,
}

/// A copy of `info` that is provably equal to it.
pub fn copy_asset_info(info: &AssetInfo) -> (r: AssetInfo)
    ensures
        r == *info,
{
    match info {
        AssetInfo::NativeToken { denom } => AssetInfo::NativeToken { denom: denom.clone() },
        AssetInfo::Token { contract_addr } => AssetInfo::Token { contract_addr: contract_addr.clone() },
    }
}

/// A copy of `asset` that is provably equal to it.
pub fn copy_asset(asset: &Asset) -> (r: Asset)
    ensures
        r == *asset,
{
    Asset { info: copy_asset_info(&asset.info), amount: asset.amount }
}

} // verus!
