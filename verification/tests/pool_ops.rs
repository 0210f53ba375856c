use pair::config::State;
use pair::errors::AmmError;
use pair::pool::Pool;
use pair::remove_liquidity::{
    RemoveLiquidityArgs, RemoveLiquidityContext, RemoveLiquidityPayments, RemoveLiquidityTxInput,
};
use pair::storage_cache::StorageCache;
use pair::types::{AccountId, TokenId, TokenPayment};

const WEGLD: TokenId = TokenId(1);
const MEX: TokenId = TokenId(2);
const USDC: TokenId = TokenId(3);
const LPMEX: TokenId = TokenId(10);
const LPUSDC: TokenId = TokenId(11);
const OWNER: AccountId = AccountId(1);
const USER: AccountId = AccountId(2);

fn setup_pair(first: TokenId, second: TokenId, lp: TokenId) -> Pool {
    let mut pool = Pool::new(first, second, OWNER, OWNER, 300, 50, None).unwrap();
    pool.config.set_lp_token_identifier(OWNER, lp).unwrap();
    pool.config.resume(OWNER).unwrap();
    pool
}

fn add_initial(pool: &mut Pool, first_amount: u64, second_amount: u64) -> u64 {
    let payments = vec![
        TokenPayment::new(pool.config.first_token_id, 0, first_amount),
        TokenPayment::new(pool.config.second_token_id, 0, second_amount),
    ];
    let result = pool.add_liquidity(1, 1, &payments).unwrap();
    result.lp_payment.amount
}

#[test]
fn test_router_setup() {
    let mex_pair = setup_pair(WEGLD, MEX, LPMEX);
    let usdc_pair = setup_pair(WEGLD, USDC, LPUSDC);
    assert_eq!(mex_pair.config.state, State::Active);
    assert_eq!(usdc_pair.config.state, State::Active);
    assert_eq!(mex_pair.config.get_lp_token_identifier(), LPMEX);
    assert_eq!(usdc_pair.config.get_lp_token_identifier(), LPUSDC);
    assert_eq!(mex_pair.config.total_fee_percent, 300);
    assert_eq!(mex_pair.config.special_fee_percent, 50);
    assert_eq!(mex_pair.config.pair_reserve_first, 0);
    assert_eq!(mex_pair.config.pair_reserve_second, 0);
    assert_eq!(mex_pair.config.lp_token_supply, 0);
}

#[test]
fn test_multi_pair_swap() {
    let mut mex_pair = setup_pair(WEGLD, MEX, LPMEX);
    let mut usdc_pair = setup_pair(WEGLD, USDC, LPUSDC);

    let mut wegld_balance: u64 = 5_002_002_000;
    let mut mex_balance: u64 = 5_001_001_000;
    let mut usdc_balance: u64 = 5_001_001_000;

    // Both pools receive 1_001_000 of each asset.
    add_initial(&mut mex_pair, 1_001_000, 1_001_000);
    wegld_balance -= 1_001_000;
    mex_balance -= 1_001_000;
    add_initial(&mut usdc_pair, 1_001_000, 1_001_000);
    wegld_balance -= 1_001_000;
    usdc_balance -= 1_001_000;

    assert_eq!(wegld_balance, 5_000_000_000);
    assert_eq!(mex_balance, 5_000_000_000);
    assert_eq!(usdc_balance, 5_000_000_000);

    // Swap 100_000 MEX into WEGLD, then the obtained WEGLD into USDC.
    let (wegld_out, actions) = mex_pair
        .swap_tokens_fixed_input(TokenPayment::new(MEX, 0, 100_000), WEGLD, 1)
        .unwrap();
    mex_balance -= 100_000;
    assert!(actions.is_empty());
    assert_eq!(wegld_out.token_id, WEGLD);
    assert_eq!(wegld_out.amount, 90_669);

    let (usdc_out, actions) = usdc_pair
        .swap_tokens_fixed_input(TokenPayment::new(WEGLD, 0, wegld_out.amount), USDC, 1)
        .unwrap();
    assert!(actions.is_empty());
    usdc_balance += usdc_out.amount;

    assert_eq!(wegld_balance, 5_000_000_000);
    assert_eq!(mex_balance, 4_999_900_000);
    assert_eq!(usdc_balance, 5_000_082_909);
}

#[test]
fn test_first_add_liquidity_shares() {
    let mut pool = setup_pair(WEGLD, MEX, LPMEX);
    let payments = vec![
        TokenPayment::new(WEGLD, 0, 1_001_000_000),
        TokenPayment::new(MEX, 0, 1_000_000_000),
    ];
    let result = pool.add_liquidity(1, 1, &payments).unwrap();
    // isqrt(1_001_000_000 * 1_000_000_000) - MINIMUM_LIQUIDITY
    assert_eq!(result.lp_payment.amount, 1_000_499_875 - 1_000);
    assert_eq!(result.lp_payment.token_id, LPMEX);
    assert_eq!(result.first_refund.amount, 0);
    assert_eq!(result.second_refund.amount, 0);
    assert_eq!(pool.config.pair_reserve_first, 1_001_000_000);
    assert_eq!(pool.config.pair_reserve_second, 1_000_000_000);
    assert_eq!(pool.config.lp_token_supply, 1_000_499_875);
}

#[test]
fn test_add_liquidity_second_deposit() {
    let mut pool = setup_pair(WEGLD, MEX, LPMEX);
    add_initial(&mut pool, 1_001_000, 1_001_000);
    let payments = vec![
        TokenPayment::new(WEGLD, 0, 500_000),
        TokenPayment::new(MEX, 0, 400_000),
    ];
    let result = pool.add_liquidity(1, 1, &payments).unwrap();
    // The second asset limits the pairing: 400_000 of each is used.
    assert_eq!(result.lp_payment.amount, 400_000);
    assert_eq!(result.first_refund.amount, 100_000);
    assert_eq!(result.second_refund.amount, 0);
    assert_eq!(pool.config.pair_reserve_first, 1_401_000);
    assert_eq!(pool.config.pair_reserve_second, 1_401_000);
    assert_eq!(pool.config.lp_token_supply, 1_401_000);
}

#[test]
fn test_add_liquidity_bad_payments() {
    let mut pool = setup_pair(WEGLD, MEX, LPMEX);
    let one = vec![TokenPayment::new(WEGLD, 0, 1000)];
    assert_eq!(pool.add_liquidity(1, 1, &one), Err(AmmError::BadPayment));
    let swapped = vec![
        TokenPayment::new(MEX, 0, 1000),
        TokenPayment::new(WEGLD, 0, 1000),
    ];
    assert_eq!(pool.add_liquidity(1, 1, &swapped), Err(AmmError::BadPayment));
    let good = vec![
        TokenPayment::new(WEGLD, 0, 1000),
        TokenPayment::new(MEX, 0, 1000),
    ];
    assert_eq!(pool.add_liquidity(0, 1, &good), Err(AmmError::InvalidArguments));
    assert_eq!(pool.config.lp_token_supply, 0);
}

#[test]
fn test_add_liquidity_overflow() {
    let mut pool = setup_pair(WEGLD, MEX, LPMEX);
    add_initial(&mut pool, 1_001_000, 1_001_000);
    let payments = vec![
        TokenPayment::new(WEGLD, 0, u64::MAX),
        TokenPayment::new(MEX, 0, u64::MAX),
    ];
    assert_eq!(pool.add_liquidity(1, 1, &payments), Err(AmmError::AmountOverflow));
    assert_eq!(pool.config.pair_reserve_first, 1_001_000);
}

#[test]
fn test_remove_liquidity_round_trip() {
    let mut pool = setup_pair(WEGLD, MEX, LPMEX);
    let shares = add_initial(&mut pool, 1_001_000, 1_001_000);
    assert_eq!(shares, 1_000_000);
    let (first_out, second_out) = pool
        .remove_liquidity(USER, 1, 1, TokenPayment::new(LPMEX, 0, shares), None)
        .unwrap();
    // Redeeming the minted shares never returns more than was deposited.
    assert!(first_out.amount <= 1_001_000);
    assert!(second_out.amount <= 1_001_000);
    assert_eq!(first_out.amount, 1_000_000);
    assert_eq!(second_out.amount, 1_000_000);
    assert_eq!(pool.config.lp_token_supply, 1_000);
    assert_eq!(pool.config.pair_reserve_first, 1_000);
    assert_eq!(pool.config.pair_reserve_second, 1_000);
}

#[test]
fn test_remove_more_than_supply() {
    let mut pool = setup_pair(WEGLD, MEX, LPMEX);
    add_initial(&mut pool, 1_001_000, 1_001_000);
    let before = pool.config;
    let r = pool.remove_liquidity(USER, 1, 1, TokenPayment::new(LPMEX, 0, 2_000_000), None);
    assert_eq!(r, Err(AmmError::InsufficientLiquidity));
    assert_eq!(pool.config, before);
}

#[test]
fn test_remove_liquidity_argument_checks() {
    let mut pool = setup_pair(WEGLD, MEX, LPMEX);
    add_initial(&mut pool, 1_001_000, 1_001_000);
    let r = pool.remove_liquidity(USER, 0, 1, TokenPayment::new(LPMEX, 0, 10), None);
    assert_eq!(r, Err(AmmError::InvalidArguments));
    let r = pool.remove_liquidity(USER, 1, 1, TokenPayment::new(LPMEX, 0, 0), None);
    assert_eq!(r, Err(AmmError::BadPayment));
    let r = pool.remove_liquidity(USER, 1, 1, TokenPayment::new(LPMEX, 7, 10), None);
    assert_eq!(r, Err(AmmError::BadPayment));
    let r = pool.remove_liquidity(USER, 1, 1, TokenPayment::new(MEX, 0, 10), None);
    assert_eq!(r, Err(AmmError::BadPayment));
}

#[test]
fn test_remove_liquidity_slippage() {
    let mut pool = setup_pair(WEGLD, MEX, LPMEX);
    add_initial(&mut pool, 1_001_000, 1_001_000);
    let r = pool.remove_liquidity(USER, 2_000_000, 1, TokenPayment::new(LPMEX, 0, 500_000), None);
    assert_eq!(r, Err(AmmError::SlippageExceeded));
}

#[test]
fn test_swap_wrong_asset() {
    let mut pool = setup_pair(WEGLD, MEX, LPMEX);
    add_initial(&mut pool, 1_001_000, 1_001_000);
    let before = pool.config;
    let r = pool.swap_tokens_fixed_input(TokenPayment::new(USDC, 0, 100), WEGLD, 1);
    assert_eq!(r, Err(AmmError::BadPayment));
    let r = pool.swap_tokens_fixed_input(TokenPayment::new(MEX, 0, 100), MEX, 1);
    assert_eq!(r, Err(AmmError::BadPayment));
    assert_eq!(pool.config, before);
}

#[test]
fn test_swap_requires_active_state() {
    let mut pool = setup_pair(WEGLD, MEX, LPMEX);
    add_initial(&mut pool, 1_001_000, 1_001_000);
    pool.config.set_state_active_no_swaps(OWNER).unwrap();
    let r = pool.swap_tokens_fixed_input(TokenPayment::new(MEX, 0, 100), WEGLD, 1);
    assert_eq!(r, Err(AmmError::InvalidState));
    pool.config.pause(OWNER).unwrap();
    let r = pool.swap_tokens_fixed_output(TokenPayment::new(MEX, 0, 100), WEGLD, 10);
    assert_eq!(r, Err(AmmError::InvalidState));
}

#[test]
fn test_swap_slippage() {
    let mut pool = setup_pair(WEGLD, MEX, LPMEX);
    add_initial(&mut pool, 1_001_000, 1_001_000);
    let r = pool.swap_tokens_fixed_input(TokenPayment::new(MEX, 0, 100_000), WEGLD, 90_670);
    assert_eq!(r, Err(AmmError::SlippageExceeded));
}

#[test]
fn test_swap_fixed_output_exact() {
    let mut pool = setup_pair(WEGLD, MEX, LPMEX);
    add_initial(&mut pool, 1_001_000, 1_001_000);
    let (out, refund, actions) = pool
        .swap_tokens_fixed_output(TokenPayment::new(MEX, 0, 60_000), WEGLD, 50_000)
        .unwrap();
    assert_eq!(out, TokenPayment::new(WEGLD, 0, 50_000));
    assert_eq!(refund, TokenPayment::new(MEX, 0, 60_000 - 52_788));
    assert!(actions.is_empty());
    assert_eq!(pool.config.pair_reserve_second, 1_001_000 + 52_788);
    assert_eq!(pool.config.pair_reserve_first, 1_001_000 - 50_000);
}

#[test]
fn test_swap_fixed_output_insufficient_payment() {
    let mut pool = setup_pair(WEGLD, MEX, LPMEX);
    add_initial(&mut pool, 1_001_000, 1_001_000);
    let before = pool.config;
    let r = pool.swap_tokens_fixed_output(TokenPayment::new(MEX, 0, 10_000), WEGLD, 50_000);
    assert_eq!(r, Err(AmmError::SlippageExceeded));
    assert_eq!(pool.config, before);
}

#[test]
fn test_remove_liquidity_context_accessors() {
    let args = RemoveLiquidityArgs::new(5, 7, Some(b"accept".to_vec()));
    assert!(args.are_valid());
    assert!(!RemoveLiquidityArgs::new(0, 7, None).are_valid());
    let payments = RemoveLiquidityPayments::new(TokenPayment::new(LPMEX, 0, 100));
    assert!(payments.are_valid());
    assert!(payments.is_valid_payment(&TokenPayment::new(LPMEX, 0, 1)));
    assert!(!payments.is_valid_payment(&TokenPayment::new(LPMEX, 0, 0)));
    assert!(!payments.is_valid_payment(&TokenPayment::new(LPMEX, 3, 1)));
    let tx_input = RemoveLiquidityTxInput::new(args, payments);
    assert!(tx_input.is_valid());
    assert_eq!(tx_input.get_args().first_token_amount_min, 5);
    assert_eq!(tx_input.get_payments().lp_token_payment.amount, 100);

    let mut context = RemoveLiquidityContext::new(tx_input, USER);
    assert_eq!(context.get_caller(), USER);
    assert_eq!(context.get_first_token_amount_min(), 5);
    assert_eq!(context.get_second_token_amount_min(), 7);
    assert_eq!(context.get_lp_token_payment().amount, 100);
    assert_eq!(context.get_opt_accept_funds_func(), &Some(b"accept".to_vec()));
    assert_eq!(context.get_tx_input().get_args().second_token_amount_min, 7);

    context.set_contract_state(State::Active);
    assert_eq!(context.get_contract_state(), State::Active);
    context.set_lp_token_id(LPMEX);
    assert_eq!(context.get_lp_token_id(), LPMEX);
    context.set_first_token_id(WEGLD);
    context.set_second_token_id(MEX);
    assert_eq!(context.get_first_token_id(), WEGLD);
    assert_eq!(context.get_second_token_id(), MEX);
    context.set_first_token_reserve(1_000);
    context.set_second_token_reserve(2_000);
    context.set_lp_token_supply(1_500);
    assert_eq!(context.get_first_token_reserve(), 1_000);
    assert_eq!(context.get_second_token_reserve(), 2_000);
    assert_eq!(context.get_lp_token_supply(), 1_500);
    context.set_initial_k(2_000_000);
    assert_eq!(context.get_initial_k(), 2_000_000);

    context.set_first_token_amount_removed(400);
    context.set_second_token_amount_removed(800);
    assert_eq!(context.get_first_token_amount_removed(), 400);
    assert_eq!(context.get_second_token_amount_removed(), 800);
    context.decrease_lp_token_supply();
    assert_eq!(context.get_lp_token_supply(), 1_400);
    context.decrease_reserves();
    assert_eq!(context.get_first_token_reserve(), 600);
    assert_eq!(context.get_second_token_reserve(), 1_200);

    let outputs = vec![TokenPayment::new(WEGLD, 0, 400), TokenPayment::new(MEX, 0, 800)];
    context.set_output_payments(outputs.clone());
    assert_eq!(context.get_output_payments(), &outputs);
}

#[test]
fn test_storage_cache_load_commit() {
    let mut pool = setup_pair(WEGLD, MEX, LPMEX);
    add_initial(&mut pool, 1_001_000, 1_001_000);
    let mut cache = StorageCache::load(&pool.config);
    assert_eq!(cache.first_token_reserve, 1_001_000);
    assert_eq!(cache.lp_token_supply, 1_001_000);
    assert_eq!(cache.contract_state, State::Active);
    assert_eq!(cache.k(), 1_001_000u128 * 1_001_000u128);
    assert!(cache.is_pair_token(WEGLD));
    assert!(cache.is_pair_token(MEX));
    assert!(!cache.is_pair_token(USDC));
    cache.first_token_reserve = 42;
    cache.commit(&mut pool.config);
    assert_eq!(pool.config.pair_reserve_first, 42);
    let default_cache = StorageCache::default();
    assert_eq!(default_cache.lp_token_supply, 0);
    assert_eq!(default_cache.contract_state, State::Inactive);
}

#[test]
fn test_pool_new_rejects_bad_arguments() {
    assert_eq!(
        Pool::new(WEGLD, WEGLD, OWNER, OWNER, 300, 50, None).err(),
        Some(AmmError::InvalidArguments)
    );
    assert_eq!(
        Pool::new(WEGLD, MEX, OWNER, OWNER, 50, 300, None).err(),
        Some(AmmError::InvalidArguments)
    );
    assert_eq!(
        Pool::new(WEGLD, MEX, OWNER, OWNER, 100_000, 50, None).err(),
        Some(AmmError::InvalidArguments)
    );
}

#[test]
fn test_active_no_swaps_still_permits_liquidity() {
    let mut pool = setup_pair(WEGLD, MEX, LPMEX);
    let shares = add_initial(&mut pool, 1_001_000, 1_001_000);
    pool.config.set_state_active_no_swaps(OWNER).unwrap();
    // Removal stays possible in `ActiveNoSwaps`; adding does not (the
    // add entry point demands the fully `Active` state).
    let r = pool.remove_liquidity(USER, 1, 1, TokenPayment::new(LPMEX, 0, shares / 2), None);
    assert!(r.is_ok());
    let payments = vec![
        TokenPayment::new(WEGLD, 0, 1_000),
        TokenPayment::new(MEX, 0, 1_000),
    ];
    assert_eq!(pool.add_liquidity(1, 1, &payments), Err(AmmError::InvalidState));
}

#[test]
fn test_pair_reserve_query() {
    let mut pool = setup_pair(WEGLD, MEX, LPMEX);
    add_initial(&mut pool, 1_001_000, 2_002_000);
    assert_eq!(pool.config.pair_reserve(WEGLD), Some(1_001_000));
    assert_eq!(pool.config.pair_reserve(MEX), Some(2_002_000));
    assert_eq!(pool.config.pair_reserve(USDC), None);
}
