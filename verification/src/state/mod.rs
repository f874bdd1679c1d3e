pub mod address;
pub mod global_state;
pub mod market;
pub mod pool;
pub mod position;
pub mod user;

pub use address::Address;
pub use global_state::GlobalState;
pub use market::{Market, MarketOutcome, MarketStatus, ResolutionSource};
pub use pool::Pool;
pub use position::{LiquidityPosition, Position};
pub use user::User;
