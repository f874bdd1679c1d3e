pub mod add_liquidity;
pub mod create_market;
pub mod create_pools;
pub mod initialize;
pub mod remove_liquidity;
pub mod resolve_market;
pub mod trade;
