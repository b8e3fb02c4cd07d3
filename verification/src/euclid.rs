//! Data types and fixed lookups of the surrounding liquidity protocol.
//!
//! The messages that carry these values to the outside protocol are built
//! elsewhere; here stand the plain shapes and the fixed catalogue answers.

use vstd::prelude::*;

verus! {

/// A token known to the protocol and the chain it lives on.
#[derive(Debug, Clone)]
pub struct TokenInfo {
    pub token: String,
    pub chain_uid: String,
}

/// An escrow balance of one chain.
#[derive(Debug, Clone)]
pub struct ChainInfo {
    pub chain_uid: String,
    pub balance: String,
    pub chain_id: String,
}

/// One virtual liquidity pool and its token pair.
#[derive(Debug, Clone)]
pub struct PoolInfo {
    pub vlp: String,
    pub token_1: String,
    pub token_2: String,
}

/// The request for the pool catalogue.
#[derive(Debug, Clone)]
pub struct QueryPoolsMsg;

/// An escrow and the denominations it accepts.
#[derive(Debug, Clone)]
pub struct Escrow {
    pub escrow_address: String,
    pub denoms: Vec<String>,
}

/// The parameters of a liquidity addition handed to the outside protocol.
#[derive(Debug)]
pub struct AddLiquidityParams {
    pub token_1_liquidity: String,
    pub token_2_liquidity: String,
    pub slippage_tolerance: u64,
    pub pair_info: PairInfo,
    pub sender: SenderInfo,
}

/// A token pair and the virtual pool that trades it.
#[derive(Debug, Clone)]
pub struct PairInfo {
    pub token_1: String,
    pub token_2: String,
    pub vlp_address: String,
}

/// Who adds the liquidity, and from which chain.
#[derive(Debug, Clone)]
pub struct SenderInfo {
    pub address: String,
    pub chain_uid: String,
}

/// The outcome of a simulated swap.
#[derive(Debug, Clone)]
pub struct SimulatedSwap {
    pub amount_out: u128,
    pub asset_out: String,
}

/// The fixed token catalogue.
pub fn query_all_tokens() -> (r: Vec<TokenInfo>)
    ensures
        r@.len() == 3,
        r@[0].token@ == "eth"@ && r@[0].chain_uid@ == "ethereum"@,
        r@[1].token@ == "sol"@ && r@[1].chain_uid@ == "osmosis"@,
        r@[2].token@ == "atom"@ && r@[2].chain_uid@ == "nibiru"@,
{
    let mut tokens: Vec<TokenInfo> = Vec::new();
    tokens.push(TokenInfo { token: "eth".to_owned(), chain_uid: "ethereum".to_owned() });
    tokens.push(TokenInfo { token: "sol".to_owned(), chain_uid: "osmosis".to_owned() });
    tokens.push(TokenInfo { token: "atom".to_owned(), chain_uid: "nibiru".to_owned() });
    tokens
}

/// The fixed escrow list for a token; the same for every token asked about.
pub fn query_escrows(_token: &str) -> (r: Vec<ChainInfo>)
    ensures
        r@.len() == 1,
        r@[0].chain_uid@ == "ethereum"@,
        r@[0].balance@ == "10056388656303"@,
        r@[0].chain_id@ == "localwasma-1"@,
{
    let mut escrows: Vec<ChainInfo> = Vec::new();
    escrows.push(
        ChainInfo {
            chain_uid: "ethereum".to_owned(),
            balance: "10056388656303".to_owned(),
            chain_id: "localwasma-1".to_owned(),
        },
    );
    escrows
}

/// The fixed pool catalogue.
pub fn query_pools(_msg: &QueryPoolsMsg) -> (r: Vec<PoolInfo>)
    ensures
        r@.len() == 2,
        r@[0].token_1@ == "osmo"@ && r@[0].token_2@ == "sol"@,
        r@[1].token_1@ == "osmo"@ && r@[1].token_2@ == "usdt"@,
{
    let mut pools: Vec<PoolInfo> = Vec::new();
    pools.push(
        PoolInfo {
            vlp: "nibi1gd52zq92wexpv0jwzktkma5krxzgkuupqlltx6qxqv4u8xp39d3qa5jdxk".to_owned(),
            token_1: "osmo".to_owned(),
            token_2: "sol".to_owned(),
        },
    );
    pools.push(
        PoolInfo {
            vlp: "nibi1x34fkar6puj4v3n0h84xf5y03u3uw5z5ggk95asql2cey6u8pygqlfups2".to_owned(),
            token_1: "osmo".to_owned(),
            token_2: "usdt".to_owned(),
        },
    );
    pools
}

/// The fixed escrow record; the same for every chain and token asked about.
pub fn query_escrow(_chain_uid: &str, _token_id: &str) -> (r: Escrow)
    ensures
        r.escrow_address@ == "wasm1hdgaz7707rwfsnm8clj440d4qzj88czvu9fqyv3m8v0z4vkw08fqz98ena"@,
        r.denoms@.len() == 1,
        r.denoms@[0]@ == "uusdta"@,
{
    let mut denoms: Vec<String> = Vec::new();
    denoms.push("uusdta".to_owned());
    Escrow {
        escrow_address: "wasm1hdgaz7707rwfsnm8clj440d4qzj88czvu9fqyv3m8v0z4vkw08fqz98ena"
            .to_owned(),
        denoms,
    }
}

/// A fixed swap simulation: the same amount out for every request, in the
/// asked-for asset.
pub fn simulate_swap(_asset_in: &str, _amount_in: u128, asset_out: &str) -> (r: SimulatedSwap)
    ensures
        r.amount_out == 1000,
        r.asset_out@ == asset_out@,
{
    SimulatedSwap { amount_out: 1000, asset_out: asset_out.to_owned() }
}

} // verus!
