use pool_odds::errors::PoolOddsError;
use pool_odds::instructions::add_liquidity::{AddLiquidity, AddLiquidityParams};
use pool_odds::instructions::create_market::{CreateMarket, CreateMarketParams};
use pool_odds::instructions::create_pools::{CreatePools, CreatePoolsParams};
use pool_odds::instructions::initialize::{Initialize, InitializeParams};
use pool_odds::instructions::remove_liquidity::{RemoveLiquidity, RemoveLiquidityParams};
use pool_odds::instructions::trade::{Trade, TradeParams};
use pool_odds::state::address::Address;
use pool_odds::state::global_state::GlobalState;
use pool_odds::state::market::{Market, MarketOutcome, MarketStatus, ResolutionSource};
use pool_odds::state::pool::Pool;
use pool_odds::state::position::{LiquidityPosition, Position};
use pool_odds::state::user::User;
use pool_odds::{
    add_liquidity, create_market, create_pools, initialize, remove_liquidity, trade,
};

fn address(tag: u8) -> Address {
    Address { bytes: [tag; 32] }
}

fn blank_configuration() -> GlobalState {
    GlobalState {
        authority: Address::default_address(),
        fee_recipient: Address::default_address(),
        protocol_fee_rate: 0,
        default_market_fee_rate: 0,
        min_market_duration: 0,
        max_market_duration: 0,
        min_bond_amount: 0,
        max_markets_per_creator: 0,
        paused: true,
        total_markets: 7,
        total_volume: 7,
        total_fees: 7,
    }
}

fn good_configuration() -> InitializeParams {
    InitializeParams {
        protocol_fee_rate: 10,
        default_market_fee_rate: 30,
        min_market_duration: 3600,
        max_market_duration: 31_536_000,
        min_bond_amount: 100_000_000,
        max_markets_per_creator: 2,
    }
}

fn initialized() -> GlobalState {
    let mut ctx = Initialize {
        global_state: blank_configuration(),
        authority: address(2),
        fee_recipient: address(3),
    };
    initialize(&mut ctx, good_configuration()).unwrap();
    ctx.global_state
}

fn blank_market() -> Market {
    let key = Address::default_address();
    Market {
        creator: key,
        title: [9; 64],
        description: [9; 128],
        category: 9,
        status: MarketStatus::Cancelled,
        resolution_source: ResolutionSource::Manual,
        oracle_account: None,
        target_price: None,
        created_at: 9,
        end_time: 9,
        resolved_at: Some(9),
        winning_outcome: Some(MarketOutcome::No),
        yes_pool: address(9),
        no_pool: address(9),
        base_token_mint: key,
        yes_share_mint: key,
        no_share_mint: key,
        fee_rate: 9,
        total_volume: 9,
        total_liquidity: 9,
        bond_amount: 9,
        trader_count: 9,
        lp_count: 9,
        bump: 9,
    }
}

fn blank_user() -> User {
    User {
        authority: Address::default_address(),
        markets_created: 0,
        total_trades: 0,
        total_volume: 0,
        total_fees_paid: 0,
        total_fees_earned: 0,
        total_realized_pnl: 0,
        created_at: 0,
        last_activity: 0,
        bump: 0,
    }
}

fn blank_pool() -> Pool {
    let key = Address::default_address();
    Pool {
        market: key,
        outcome: MarketOutcome::No,
        base_token_mint: key,
        share_token_mint: key,
        base_token_vault: key,
        share_token_vault: key,
        lp_token_mint: key,
        base_reserves: 9,
        share_reserves: 9,
        lp_token_supply: 9,
        current_price: 9,
        volume: 9,
        fees_collected: 9,
        fee_rate: 9,
        last_update: 9,
        bump: 9,
    }
}

fn blank_position() -> Position {
    let key = Address::default_address();
    Position {
        owner: key,
        market: key,
        outcome: MarketOutcome::No,
        shares: 9,
        average_price: 9,
        total_invested: 9,
        realized_pnl: 9,
        created_at: 9,
        last_update: 9,
        bump: 9,
    }
}

fn blank_liquidity_position() -> LiquidityPosition {
    let key = Address::default_address();
    LiquidityPosition {
        owner: key,
        pool: key,
        lp_tokens: 9,
        initial_base_deposit: 9,
        initial_share_deposit: 9,
        fees_earned: 9,
        created_at: 9,
        last_update: 9,
        bump: 9,
    }
}

fn market_request() -> CreateMarketParams {
    CreateMarketParams {
        title: String::from("Will BTC close above 100k?"),
        description: String::from("Resolves by the closing price."),
        category: 0,
        end_time: 1_000 + 86_400,
        resolution_source: ResolutionSource::Oracle,
        oracle_account: Some(address(20)),
        target_price: Some(100_000),
        bond_amount: 100_000_000,
    }
}

fn creation() -> CreateMarket {
    CreateMarket {
        global_state: initialized(),
        market: blank_market(),
        user: blank_user(),
        creator: address(1),
        yes_share_mint: address(11),
        no_share_mint: address(12),
        base_token_mint: address(10),
        market_bump: 254,
        user_bump: 253,
    }
}

fn created_market() -> Market {
    let mut ctx = creation();
    create_market(&mut ctx, market_request(), 1_000).unwrap();
    ctx.market
}

fn pools_of(market: Market) -> CreatePools {
    CreatePools {
        market,
        market_key: address(30),
        yes_pool: blank_pool(),
        yes_pool_key: address(31),
        no_pool: blank_pool(),
        no_pool_key: address(32),
        yes_base_vault: address(33),
        yes_share_vault: address(34),
        no_base_vault: address(35),
        no_share_vault: address(36),
        yes_lp_mint: address(37),
        no_lp_mint: address(38),
        creator: address(1),
        yes_pool_bump: 252,
        no_pool_bump: 251,
    }
}

fn created_pools() -> CreatePools {
    let mut ctx = pools_of(created_market());
    create_pools(&mut ctx, CreatePoolsParams { initial_liquidity: 0 }, 1_500).unwrap();
    ctx
}

fn funded_yes_pool() -> AddLiquidity {
    let pools = created_pools();
    let mut ctx = AddLiquidity {
        market: pools.market,
        market_key: address(30),
        pool: pools.yes_pool,
        pool_key: address(31),
        liquidity_position: blank_liquidity_position(),
        provider: address(40),
        position_bump: 250,
    };
    let deposit =
        AddLiquidityParams { base_amount: 1_000_000, share_amount: 1_000_000, min_lp_tokens: 0 };
    add_liquidity(&mut ctx, deposit, 2_000).unwrap();
    ctx
}

fn trading() -> Trade {
    let funded = funded_yes_pool();
    Trade {
        market: funded.market,
        market_key: address(30),
        pool: funded.pool,
        position: blank_position(),
        user: blank_user(),
        trader: address(50),
        position_bump: 249,
        user_bump: 248,
    }
}

fn buy(amount_in: u64) -> TradeParams {
    TradeParams { outcome: MarketOutcome::Yes, amount_in, min_amount_out: 0, is_buy: true }
}

fn sell(amount_in: u64) -> TradeParams {
    TradeParams { outcome: MarketOutcome::Yes, amount_in, min_amount_out: 0, is_buy: false }
}

#[test]
fn initialize_writes_the_configuration() {
    let state = initialized();
    assert!(state.authority.same_as(&address(2)));
    assert!(state.fee_recipient.same_as(&address(3)));
    assert_eq!(state.protocol_fee_rate, 10);
    assert_eq!(state.default_market_fee_rate, 30);
    assert_eq!(state.min_market_duration, 3600);
    assert_eq!(state.max_market_duration, 31_536_000);
    assert_eq!(state.min_bond_amount, 100_000_000);
    assert_eq!(state.max_markets_per_creator, 2);
    assert!(!state.paused);
    assert_eq!(state.total_markets, 0);
    assert_eq!(state.total_volume, 0);
    assert_eq!(state.total_fees, 0);
}

#[test]
fn initialize_rejects_faulty_configurations() {
    let cases: [(InitializeParams, PoolOddsError); 6] = [
        (
            InitializeParams { protocol_fee_rate: 1001, ..good_configuration() },
            PoolOddsError::InvalidFeeRate,
        ),
        (
            InitializeParams { default_market_fee_rate: 1001, ..good_configuration() },
            PoolOddsError::InvalidFeeRate,
        ),
        (
            InitializeParams { min_market_duration: 0, ..good_configuration() },
            PoolOddsError::InvalidMarketDuration,
        ),
        (
            InitializeParams { max_market_duration: 3600, ..good_configuration() },
            PoolOddsError::InvalidMarketDuration,
        ),
        (
            InitializeParams { min_bond_amount: 0, ..good_configuration() },
            PoolOddsError::InsufficientBondAmount,
        ),
        (
            InitializeParams { max_markets_per_creator: 0, ..good_configuration() },
            PoolOddsError::InvalidParameter,
        ),
    ];
    for (params, error) in cases {
        let mut ctx = Initialize {
            global_state: blank_configuration(),
            authority: address(2),
            fee_recipient: address(3),
        };
        assert_eq!(initialize(&mut ctx, params), Err(error));
        assert!(ctx.global_state.paused);
        assert_eq!(ctx.global_state.total_markets, 7);
    }
    let mut ctx = Initialize {
        global_state: blank_configuration(),
        authority: address(2),
        fee_recipient: address(3),
    };
    let edge = InitializeParams {
        protocol_fee_rate: 1000,
        default_market_fee_rate: 1000,
        ..good_configuration()
    };
    assert_eq!(initialize(&mut ctx, edge), Ok(()));
}

#[test]
fn create_market_writes_an_active_market() {
    let mut ctx = creation();
    assert_eq!(create_market(&mut ctx, market_request(), 1_000), Ok(()));
    let market = ctx.market;
    assert!(market.creator.same_as(&address(1)));
    assert_eq!(market.get_title(), "Will BTC close above 100k?");
    assert_eq!(market.get_description(), "Resolves by the closing price.");
    assert_eq!(market.category, 0);
    assert_eq!(market.status, MarketStatus::Active);
    assert_eq!(market.resolution_source, ResolutionSource::Oracle);
    assert!(market.oracle_account.unwrap().same_as(&address(20)));
    assert_eq!(market.target_price, Some(100_000));
    assert_eq!(market.created_at, 1_000);
    assert_eq!(market.end_time, 87_400);
    assert_eq!(market.resolved_at, None);
    assert_eq!(market.winning_outcome, None);
    assert!(market.yes_pool.is_default());
    assert!(market.no_pool.is_default());
    assert!(market.base_token_mint.same_as(&address(10)));
    assert!(market.yes_share_mint.same_as(&address(11)));
    assert!(market.no_share_mint.same_as(&address(12)));
    assert_eq!(market.fee_rate, 30);
    assert_eq!(market.total_volume, 0);
    assert_eq!(market.total_liquidity, 0);
    assert_eq!(market.bond_amount, 100_000_000);
    assert_eq!(market.trader_count, 0);
    assert_eq!(market.lp_count, 0);
    assert_eq!(market.bump, 254);
    assert_eq!(ctx.global_state.total_markets, 1);
    assert!(ctx.user.authority.same_as(&address(1)));
    assert_eq!(ctx.user.created_at, 1_000);
    assert_eq!(ctx.user.bump, 253);
    assert_eq!(ctx.user.markets_created, 1);
    assert_eq!(ctx.user.last_activity, 1_000);
}

#[test]
fn create_market_refuses_bad_requests() {
    let now = 1_000;
    let mut paused = creation();
    paused.global_state.paused = true;
    assert_eq!(create_market(&mut paused, market_request(), now), Err(PoolOddsError::ProgramPaused));

    let cases: [(CreateMarketParams, PoolOddsError); 9] = [
        (
            CreateMarketParams { end_time: now + 3_599, ..market_request() },
            PoolOddsError::InvalidMarketDuration,
        ),
        (
            CreateMarketParams { end_time: now + 31_536_001, ..market_request() },
            PoolOddsError::InvalidMarketDuration,
        ),
        (
            CreateMarketParams { end_time: i64::MAX, ..market_request() },
            PoolOddsError::InvalidMarketDuration,
        ),
        (
            CreateMarketParams { bond_amount: 99_999_999, ..market_request() },
            PoolOddsError::InsufficientBondAmount,
        ),
        (
            CreateMarketParams { title: "t".repeat(65), ..market_request() },
            PoolOddsError::TitleTooLong,
        ),
        (
            CreateMarketParams { description: "d".repeat(129), ..market_request() },
            PoolOddsError::DescriptionTooLong,
        ),
        (
            CreateMarketParams { oracle_account: None, ..market_request() },
            PoolOddsError::MissingOracleData,
        ),
        (
            CreateMarketParams { target_price: None, ..market_request() },
            PoolOddsError::MissingOracleData,
        ),
        (
            CreateMarketParams {
                title: "t".repeat(65),
                bond_amount: 1,
                description: "d".repeat(129),
                ..market_request()
            },
            PoolOddsError::InsufficientBondAmount,
        ),
    ];
    for (params, error) in cases {
        let mut ctx = creation();
        assert_eq!(create_market(&mut ctx, params, now), Err(error));
        assert_eq!(ctx.market.status, MarketStatus::Cancelled);
        assert_eq!(ctx.global_state.total_markets, 0);
        assert_eq!(ctx.user.markets_created, 0);
        assert!(ctx.user.authority.is_default());
    }
}

#[test]
fn create_market_refuses_an_end_that_is_not_ahead() {
    let mut ctx = creation();
    ctx.global_state.min_market_duration = -10;
    let params = CreateMarketParams { end_time: 1_000, ..market_request() };
    assert_eq!(create_market(&mut ctx, params, 1_000), Err(PoolOddsError::InvalidEndTime));
}

#[test]
fn create_market_holds_creators_to_their_limit() {
    let mut ctx = creation();
    assert_eq!(create_market(&mut ctx, market_request(), 1_000), Ok(()));
    assert_eq!(create_market(&mut ctx, market_request(), 1_000), Ok(()));
    assert_eq!(ctx.user.markets_created, 2);
    assert_eq!(ctx.global_state.total_markets, 2);
    assert_eq!(
        create_market(&mut ctx, market_request(), 1_000),
        Err(PoolOddsError::TooManyMarkets)
    );
    assert_eq!(ctx.global_state.total_markets, 2);
}

#[test]
fn create_market_reports_counter_overflow() {
    let mut ctx = creation();
    ctx.global_state.total_markets = u64::MAX;
    assert_eq!(create_market(&mut ctx, market_request(), 1_000), Err(PoolOddsError::MathOverflow));
    assert_eq!(ctx.market.status, MarketStatus::Cancelled);
}

#[test]
fn manual_market_needs_no_oracle() {
    let mut ctx = creation();
    let params = CreateMarketParams {
        resolution_source: ResolutionSource::Manual,
        oracle_account: None,
        target_price: None,
        ..market_request()
    };
    assert_eq!(create_market(&mut ctx, params, 1_000), Ok(()));
    assert_eq!(ctx.market.resolution_source, ResolutionSource::Manual);
    assert_eq!(ctx.market.target_price, None);
}

#[test]
fn create_pools_writes_two_empty_pools() {
    let ctx = created_pools();
    assert!(ctx.market.yes_pool.same_as(&address(31)));
    assert!(ctx.market.no_pool.same_as(&address(32)));
    assert_eq!(ctx.yes_pool.outcome, MarketOutcome::Yes);
    assert_eq!(ctx.no_pool.outcome, MarketOutcome::No);
    assert!(ctx.yes_pool.market.same_as(&address(30)));
    assert!(ctx.no_pool.market.same_as(&address(30)));
    assert!(ctx.yes_pool.base_token_mint.same_as(&address(10)));
    assert!(ctx.no_pool.base_token_mint.same_as(&address(10)));
    assert!(ctx.yes_pool.share_token_mint.same_as(&address(11)));
    assert!(ctx.no_pool.share_token_mint.same_as(&address(12)));
    assert!(ctx.yes_pool.base_token_vault.same_as(&address(33)));
    assert!(ctx.yes_pool.share_token_vault.same_as(&address(34)));
    assert!(ctx.no_pool.base_token_vault.same_as(&address(35)));
    assert!(ctx.no_pool.share_token_vault.same_as(&address(36)));
    assert!(ctx.yes_pool.lp_token_mint.same_as(&address(37)));
    assert!(ctx.no_pool.lp_token_mint.same_as(&address(38)));
    assert_eq!(ctx.yes_pool.bump, 252);
    assert_eq!(ctx.no_pool.bump, 251);
    for pool in [ctx.yes_pool, ctx.no_pool] {
        assert_eq!(pool.base_reserves, 0);
        assert_eq!(pool.share_reserves, 0);
        assert_eq!(pool.lp_token_supply, 0);
        assert_eq!(pool.current_price, 1_000_000);
        assert_eq!(pool.calculate_price(), Ok(pool.current_price));
        assert_eq!(pool.volume, 0);
        assert_eq!(pool.fees_collected, 0);
        assert_eq!(pool.fee_rate, 30);
        assert_eq!(pool.last_update, 1_500);
    }
}

#[test]
fn create_pools_is_for_the_creator_of_an_open_market() {
    let mut stranger = pools_of(created_market());
    stranger.creator = address(77);
    assert_eq!(
        create_pools(&mut stranger, CreatePoolsParams { initial_liquidity: 0 }, 1_500),
        Err(PoolOddsError::Unauthorized)
    );
    assert_eq!(stranger.yes_pool.base_reserves, 9);
    assert!(stranger.market.yes_pool.is_default());

    let mut late = pools_of(created_market());
    assert_eq!(
        create_pools(&mut late, CreatePoolsParams { initial_liquidity: 0 }, 87_400),
        Err(PoolOddsError::MarketNotActive)
    );
    assert_eq!(late.no_pool.base_reserves, 9);
}

#[test]
fn first_deposit_mints_the_geometric_mean_at_price_one() {
    let ctx = funded_yes_pool();
    assert_eq!(ctx.pool.base_reserves, 1_000_000);
    assert_eq!(ctx.pool.share_reserves, 1_000_000);
    assert_eq!(ctx.pool.lp_token_supply, 1_000_000);
    assert_eq!(ctx.pool.current_price, 1_000_000);
    assert_eq!(ctx.pool.last_update, 2_000);
    assert_eq!(ctx.liquidity_position.lp_tokens, 1_000_000);
    assert_eq!(ctx.liquidity_position.initial_base_deposit, 1_000_000);
    assert_eq!(ctx.liquidity_position.initial_share_deposit, 1_000_000);
    assert_eq!(ctx.liquidity_position.fees_earned, 0);
    assert_eq!(ctx.liquidity_position.created_at, 2_000);
    assert_eq!(ctx.liquidity_position.bump, 250);
    assert!(ctx.liquidity_position.owner.same_as(&address(40)));
    assert!(ctx.liquidity_position.pool.same_as(&address(31)));
    assert_eq!(ctx.market.total_liquidity, 1_000_000);
    assert_eq!(ctx.market.lp_count, 1);
}

#[test]
fn first_deposit_returns_the_tokens_minted() {
    let pools = created_pools();
    let mut ctx = AddLiquidity {
        market: pools.market,
        market_key: address(30),
        pool: pools.no_pool,
        pool_key: address(32),
        liquidity_position: blank_liquidity_position(),
        provider: address(40),
        position_bump: 250,
    };
    let deposit = AddLiquidityParams { base_amount: 4, share_amount: 9, min_lp_tokens: 6 };
    assert_eq!(add_liquidity(&mut ctx, deposit, 2_000), Ok(6));
    assert_eq!(ctx.pool.current_price, 444_444);
}

#[test]
fn later_deposits_add_to_the_same_position() {
    let mut ctx = funded_yes_pool();
    let deposit = AddLiquidityParams { base_amount: 500, share_amount: 2_000, min_lp_tokens: 500 };
    assert_eq!(add_liquidity(&mut ctx, deposit, 2_100), Ok(500));
    assert_eq!(ctx.pool.base_reserves, 1_000_500);
    assert_eq!(ctx.pool.share_reserves, 1_002_000);
    assert_eq!(ctx.pool.lp_token_supply, 1_000_500);
    assert_eq!(ctx.liquidity_position.lp_tokens, 1_000_500);
    assert_eq!(ctx.liquidity_position.initial_base_deposit, 1_000_000);
    assert_eq!(ctx.liquidity_position.created_at, 2_000);
    assert_eq!(ctx.liquidity_position.last_update, 2_100);
    assert_eq!(ctx.market.lp_count, 1);
    assert_eq!(ctx.market.total_liquidity, 1_000_500);
}

#[test]
fn deposits_are_refused_with_their_reason() {
    let deposit =
        AddLiquidityParams { base_amount: 1_000, share_amount: 1_000, min_lp_tokens: 0 };
    let mut late = funded_yes_pool();
    assert_eq!(add_liquidity(&mut late, deposit, 87_400), Err(PoolOddsError::MarketNotActive));
    let mut wrong = funded_yes_pool();
    wrong.market_key = address(99);
    assert_eq!(add_liquidity(&mut wrong, deposit, 2_100), Err(PoolOddsError::InvalidPool));
    let mut empty = funded_yes_pool();
    let nothing = AddLiquidityParams { base_amount: 0, ..deposit };
    assert_eq!(
        add_liquidity(&mut empty, nothing, 2_100),
        Err(PoolOddsError::InvalidLiquidityAmount)
    );
    let no_shares = AddLiquidityParams { share_amount: 0, ..deposit };
    assert_eq!(
        add_liquidity(&mut empty, no_shares, 2_100),
        Err(PoolOddsError::InvalidLiquidityAmount)
    );
    let greedy = AddLiquidityParams { min_lp_tokens: 1_001, ..deposit };
    assert_eq!(add_liquidity(&mut empty, greedy, 2_100), Err(PoolOddsError::SlippageExceeded));
    let huge = AddLiquidityParams { base_amount: u64::MAX, share_amount: 1, min_lp_tokens: 0 };
    assert_eq!(add_liquidity(&mut empty, huge, 2_100), Err(PoolOddsError::MathOverflow));
    assert_eq!(empty.pool.base_reserves, 1_000_000);
    assert_eq!(empty.pool.lp_token_supply, 1_000_000);
    assert_eq!(empty.liquidity_position.lp_tokens, 1_000_000);
    assert_eq!(empty.pool.last_update, 2_000);
}

#[test]
fn first_deposit_too_small_is_refused() {
    let pools = created_pools();
    let mut ctx = AddLiquidity {
        market: pools.market,
        market_key: address(30),
        pool: pools.yes_pool,
        pool_key: address(31),
        liquidity_position: blank_liquidity_position(),
        provider: address(40),
        position_bump: 250,
    };
    ctx.pool.lp_token_supply = 0;
    let mut drained = ctx;
    drained.pool.lp_token_supply = 5;
    let deposit = AddLiquidityParams { base_amount: 1, share_amount: 1, min_lp_tokens: 0 };
    assert_eq!(add_liquidity(&mut drained, deposit, 2_000), Err(PoolOddsError::DivisionByZero));
    assert_eq!(add_liquidity(&mut ctx, deposit, 2_000), Ok(1));
}

#[test]
fn withdrawal_pays_the_proportional_claim() {
    let funded = funded_yes_pool();
    let mut ctx = RemoveLiquidity {
        pool: funded.pool,
        pool_key: address(31),
        liquidity_position: funded.liquidity_position,
        provider: address(40),
    };
    ctx.pool.base_reserves = 1_100_000;
    ctx.pool.share_reserves = 909_339;
    let params =
        RemoveLiquidityParams { lp_tokens: 250_000, min_base_amount: 275_000, min_share_amount: 227_334 };
    assert_eq!(remove_liquidity(&mut ctx, params, 3_000), Ok((275_000, 227_334)));
    assert_eq!(ctx.pool.base_reserves, 825_000);
    assert_eq!(ctx.pool.share_reserves, 682_005);
    assert_eq!(ctx.pool.lp_token_supply, 750_000);
    assert_eq!(ctx.pool.current_price, 1_209_668);
    assert_eq!(ctx.pool.last_update, 3_000);
    assert_eq!(ctx.liquidity_position.lp_tokens, 750_000);
    assert_eq!(ctx.liquidity_position.last_update, 3_000);
}

#[test]
fn withdrawing_everything_empties_the_pool() {
    let funded = funded_yes_pool();
    let mut ctx = RemoveLiquidity {
        pool: funded.pool,
        pool_key: address(31),
        liquidity_position: funded.liquidity_position,
        provider: address(40),
    };
    let params =
        RemoveLiquidityParams { lp_tokens: 1_000_000, min_base_amount: 0, min_share_amount: 0 };
    assert_eq!(remove_liquidity(&mut ctx, params, 3_000), Ok((1_000_000, 1_000_000)));
    assert_eq!(ctx.pool.base_reserves, 0);
    assert_eq!(ctx.pool.share_reserves, 0);
    assert_eq!(ctx.pool.lp_token_supply, 0);
    assert_eq!(ctx.pool.current_price, 1_000_000);
    assert_eq!(ctx.liquidity_position.lp_tokens, 0);
}

#[test]
fn withdrawals_are_refused_with_their_reason() {
    let funded = funded_yes_pool();
    let ctx = RemoveLiquidity {
        pool: funded.pool,
        pool_key: address(31),
        liquidity_position: funded.liquidity_position,
        provider: address(40),
    };
    let params = RemoveLiquidityParams { lp_tokens: 10, min_base_amount: 0, min_share_amount: 0 };

    let mut stranger = ctx;
    stranger.provider = address(41);
    assert_eq!(remove_liquidity(&mut stranger, params, 3_000), Err(PoolOddsError::Unauthorized));
    let mut wrong = ctx;
    wrong.pool_key = address(32);
    assert_eq!(remove_liquidity(&mut wrong, params, 3_000), Err(PoolOddsError::InvalidPool));
    let mut same = ctx;
    let nothing = RemoveLiquidityParams { lp_tokens: 0, ..params };
    assert_eq!(
        remove_liquidity(&mut same, nothing, 3_000),
        Err(PoolOddsError::InvalidLiquidityAmount)
    );
    let too_many = RemoveLiquidityParams { lp_tokens: 1_000_001, ..params };
    assert_eq!(
        remove_liquidity(&mut same, too_many, 3_000),
        Err(PoolOddsError::InsufficientLPTokens)
    );
    let greedy = RemoveLiquidityParams { min_base_amount: 11, ..params };
    assert_eq!(remove_liquidity(&mut same, greedy, 3_000), Err(PoolOddsError::SlippageExceeded));
    let greedy_shares = RemoveLiquidityParams { min_share_amount: 11, ..params };
    assert_eq!(
        remove_liquidity(&mut same, greedy_shares, 3_000),
        Err(PoolOddsError::SlippageExceeded)
    );
    let mut short = ctx;
    short.pool.lp_token_supply = 5;
    assert_eq!(
        remove_liquidity(&mut short, params, 3_000),
        Err(PoolOddsError::InsufficientLPTokens)
    );
    let mut huge = ctx;
    huge.pool.base_reserves = u64::MAX;
    assert_eq!(remove_liquidity(&mut huge, params, 3_000), Err(PoolOddsError::MathOverflow));
    assert_eq!(same.pool.base_reserves, 1_000_000);
    assert_eq!(same.liquidity_position.lp_tokens, 1_000_000);
    assert_eq!(same.pool.last_update, 2_000);
}

#[test]
fn buy_swaps_base_for_shares() {
    let mut ctx = trading();
    let receipt = trade(&mut ctx, buy(100_000), 2_500).unwrap();
    assert_eq!(receipt.amount_in, 100_000);
    assert_eq!(receipt.amount_out, 90_661);
    assert_eq!(receipt.fee_amount, 300);
    assert_eq!(receipt.price_impact, 1_000);
    assert_eq!(ctx.pool.base_reserves, 1_100_000);
    assert_eq!(ctx.pool.share_reserves, 909_339);
    assert_eq!(ctx.pool.fees_collected, 300);
    assert_eq!(ctx.pool.volume, 100_000);
    assert_eq!(ctx.pool.current_price, 1_209_669);
    assert_eq!(ctx.pool.last_update, 2_500);
    assert_eq!(ctx.pool.lp_token_supply, 1_000_000);
    assert!(ctx.position.owner.same_as(&address(50)));
    assert!(ctx.position.market.same_as(&address(30)));
    assert_eq!(ctx.position.outcome, MarketOutcome::Yes);
    assert_eq!(ctx.position.shares, 90_661);
    assert_eq!(ctx.position.total_invested, 100_000);
    assert_eq!(ctx.position.average_price, 1_103_010);
    assert_eq!(ctx.position.realized_pnl, 0);
    assert_eq!(ctx.position.created_at, 2_500);
    assert_eq!(ctx.position.last_update, 2_500);
    assert_eq!(ctx.position.bump, 249);
    assert!(ctx.user.authority.same_as(&address(50)));
    assert_eq!(ctx.user.created_at, 2_500);
    assert_eq!(ctx.user.bump, 248);
    assert_eq!(ctx.user.total_trades, 1);
    assert_eq!(ctx.user.total_volume, 100_000);
    assert_eq!(ctx.user.total_fees_paid, 300);
    assert_eq!(ctx.market.total_volume, 100_000);
}

#[test]
fn sell_swaps_shares_for_base_less_the_fee() {
    let mut ctx = trading();
    ctx.position.owner = address(50);
    ctx.position.market = address(30);
    ctx.position.outcome = MarketOutcome::Yes;
    ctx.position.shares = 150_000;
    ctx.position.average_price = 1_000_000;
    ctx.position.total_invested = 150_000;
    ctx.position.realized_pnl = 0;
    let receipt = trade(&mut ctx, sell(100_000), 2_600).unwrap();
    assert_eq!(receipt.amount_out, 90_390);
    assert_eq!(receipt.fee_amount, 271);
    assert_eq!(receipt.price_impact, 1_000);
    assert_eq!(ctx.pool.share_reserves, 1_100_000);
    assert_eq!(ctx.pool.base_reserves, 909_610);
    assert_eq!(ctx.pool.fees_collected, 271);
    assert_eq!(ctx.pool.volume, 100_000);
    assert_eq!(ctx.pool.current_price, 826_918);
    assert_eq!(ctx.position.shares, 50_000);
    assert_eq!(ctx.position.total_invested, 50_000);
    assert_eq!(ctx.position.realized_pnl, 90_390 - 100_000);
    assert_eq!(ctx.position.created_at, 9);
    assert_eq!(ctx.user.total_fees_paid, 271);
    assert_eq!(ctx.market.total_volume, 100_000);
}

#[test]
fn trades_are_refused_with_their_reason() {
    let mut late = trading();
    assert_eq!(trade(&mut late, buy(1_000), 87_400).unwrap_err(), PoolOddsError::MarketNotActive);
    let mut resolved = trading();
    resolved.market.status = MarketStatus::Resolved;
    assert_eq!(trade(&mut resolved, buy(1_000), 2_500).unwrap_err(), PoolOddsError::MarketNotActive);
    let mut other_market = trading();
    other_market.market_key = address(99);
    assert_eq!(trade(&mut other_market, buy(1_000), 2_500).unwrap_err(), PoolOddsError::InvalidPool);
    let mut ctx = trading();
    let other_outcome = TradeParams { outcome: MarketOutcome::No, ..buy(1_000) };
    assert_eq!(trade(&mut ctx, other_outcome, 2_500).unwrap_err(), PoolOddsError::InvalidPool);
    let picky = TradeParams { min_amount_out: 90_662, ..buy(100_000) };
    assert_eq!(trade(&mut ctx, picky, 2_500).unwrap_err(), PoolOddsError::SlippageExceeded);
    assert_eq!(trade(&mut ctx, buy(110_000), 2_500).unwrap_err(), PoolOddsError::PriceImpactTooHigh);
    assert_eq!(trade(&mut ctx, buy(100_100), 2_500).unwrap_err(), PoolOddsError::PriceImpactTooHigh);
    assert_eq!(trade(&mut ctx, sell(1_000), 2_500).unwrap_err(), PoolOddsError::InsufficientShares);
    assert_eq!(ctx.pool.base_reserves, 1_000_000);
    assert_eq!(ctx.pool.share_reserves, 1_000_000);
    assert_eq!(ctx.pool.volume, 0);
    assert_eq!(ctx.position.shares, 9);
    assert!(ctx.position.owner.is_default());
    assert!(ctx.user.authority.is_default());
    assert_eq!(ctx.market.total_volume, 0);
    let exact = TradeParams { min_amount_out: 90_661, ..buy(100_000) };
    assert!(trade(&mut ctx, exact, 2_500).is_ok());
}

#[test]
fn trades_need_liquidity() {
    let pools = created_pools();
    let mut ctx = Trade {
        market: pools.market,
        market_key: address(30),
        pool: pools.yes_pool,
        position: blank_position(),
        user: blank_user(),
        trader: address(50),
        position_bump: 249,
        user_bump: 248,
    };
    assert_eq!(
        trade(&mut ctx, buy(1_000), 2_500).unwrap_err(),
        PoolOddsError::InsufficientLiquidity
    );
}

#[test]
fn trades_keep_the_product_of_the_reserves() {
    let mut ctx = trading();
    let mut product = (ctx.pool.base_reserves as u128) * (ctx.pool.share_reserves as u128);
    let steps: [TradeParams; 5] = [buy(50_000), buy(7), sell(20_000), buy(99_999), sell(1)];
    let mut now = 2_500;
    for step in steps {
        trade(&mut ctx, step, now).unwrap();
        let next = (ctx.pool.base_reserves as u128) * (ctx.pool.share_reserves as u128);
        assert!(next >= product);
        product = next;
        now += 1;
    }
    assert_eq!(ctx.user.total_trades, 5);
    assert_eq!(ctx.market.total_volume, 50_000 + 7 + 20_000 + 99_999 + 1);
}
