use pair::config::State;
use pair::errors::AmmError;
use pair::fee::{FeeAction, FeeDestination, PairProxy, TrustedSwapPair};
use pair::pool::Pool;
use pair::types::{AccountId, TokenId, TokenPayment};

const WEGLD: TokenId = TokenId(1);
const MEX: TokenId = TokenId(2);
const USDC: TokenId = TokenId(3);
const LPMEX: TokenId = TokenId(10);
const OWNER: AccountId = AccountId(1);
const USER: AccountId = AccountId(2);
const DEST_A: AccountId = AccountId(21);
const DEST_B: AccountId = AccountId(22);
const DEST_C: AccountId = AccountId(23);
const OTHER_PAIR: AccountId = AccountId(30);

fn setup_pool_with_liquidity() -> Pool {
    let mut pool = Pool::new(WEGLD, MEX, OWNER, OWNER, 300, 50, None).unwrap();
    pool.config.set_lp_token_identifier(OWNER, LPMEX).unwrap();
    pool.config.resume(OWNER).unwrap();
    let payments = vec![
        TokenPayment::new(WEGLD, 0, 1_001_000),
        TokenPayment::new(MEX, 0, 1_001_000),
    ];
    pool.add_liquidity(1, 1, &payments).unwrap();
    pool
}

#[test]
fn test_permissioned_state_transitions() {
    let mut pool = Pool::new(WEGLD, MEX, OWNER, OWNER, 300, 50, None).unwrap();
    assert_eq!(pool.config.state, State::Inactive);
    assert_eq!(pool.config.pause(USER), Err(AmmError::PermissionDenied));
    assert_eq!(pool.config.resume(OWNER), Ok(()));
    assert_eq!(pool.config.state, State::Active);
    assert_eq!(pool.config.set_state_active_no_swaps(OWNER), Ok(()));
    assert_eq!(pool.config.state, State::ActiveNoSwaps);
    assert_eq!(pool.config.pause(OWNER), Ok(()));
    assert_eq!(pool.config.state, State::Inactive);
}

#[test]
fn test_set_fee_percent_validation() {
    let mut pool = Pool::new(WEGLD, MEX, OWNER, OWNER, 300, 50, None).unwrap();
    assert_eq!(pool.config.set_fee_percent(USER, 400, 100), Err(AmmError::PermissionDenied));
    assert_eq!(pool.config.set_fee_percent(OWNER, 100, 400), Err(AmmError::InvalidArguments));
    assert_eq!(pool.config.set_fee_percent(OWNER, 100_000, 50), Err(AmmError::InvalidArguments));
    assert_eq!(pool.config.total_fee_percent, 300);
    assert_eq!(pool.config.set_fee_percent(OWNER, 400, 100), Ok(()));
    assert_eq!(pool.config.total_fee_percent, 400);
    assert_eq!(pool.config.special_fee_percent, 100);
    assert_eq!(pool.config.set_fee_percents(500, 200), Ok(()));
    assert_eq!(pool.config.total_fee_percent, 500);
}

#[test]
fn test_gas_limit_setters() {
    let mut pool = Pool::new(WEGLD, MEX, OWNER, OWNER, 300, 50, None).unwrap();
    assert_eq!(pool.config.set_transfer_exec_gas_limit(USER, 7), Err(AmmError::PermissionDenied));
    assert_eq!(pool.config.set_transfer_exec_gas_limit(OWNER, 7), Ok(()));
    assert_eq!(pool.config.transfer_exec_gas_limit, 7);
    assert_eq!(pool.config.set_extern_swap_gas_limit(OWNER, 9), Ok(()));
    assert_eq!(pool.config.extern_swap_gas_limit, 9);
}

#[test]
fn test_whitelist_endpoints() {
    let mut pool = Pool::new(WEGLD, MEX, OWNER, OWNER, 300, 50, None).unwrap();
    assert_eq!(
        pool.fee.whitelist_endpoint(&pool.config, USER, DEST_A),
        Err(AmmError::PermissionDenied)
    );
    assert_eq!(pool.fee.whitelist_endpoint(&pool.config, OWNER, DEST_A), Ok(()));
    assert_eq!(
        pool.fee.whitelist_endpoint(&pool.config, OWNER, DEST_A),
        Err(AmmError::InvalidArguments)
    );
    assert!(pool.fee.is_whitelisted(DEST_A));
    assert_eq!(pool.fee.get_whitelisted_managed_addresses(), vec![DEST_A]);
    assert_eq!(
        pool.fee.remove_whitelist(&pool.config, OWNER, DEST_B),
        Err(AmmError::InvalidArguments)
    );
    assert_eq!(pool.fee.remove_whitelist(&pool.config, OWNER, DEST_A), Ok(()));
    assert!(!pool.fee.is_whitelisted(DEST_A));
}

#[test]
fn test_trusted_swap_pairs() {
    let mut pool = Pool::new(WEGLD, MEX, OWNER, OWNER, 300, 50, None).unwrap();
    assert_eq!(
        pool.fee.add_trusted_swap_pair(&pool.config, OWNER, OTHER_PAIR, USDC, USDC),
        Err(AmmError::InvalidArguments)
    );
    assert_eq!(
        pool.fee.add_trusted_swap_pair(&pool.config, OWNER, OTHER_PAIR, MEX, USDC),
        Ok(())
    );
    assert_eq!(
        pool.fee.add_trusted_swap_pair(&pool.config, OWNER, OTHER_PAIR, MEX, USDC),
        Err(AmmError::InvalidArguments)
    );
    // The lookup tries both orderings of the pair.
    assert_eq!(pool.fee.get_extern_swap_pair_address(MEX, USDC), Some(OTHER_PAIR));
    assert_eq!(pool.fee.get_extern_swap_pair_address(USDC, MEX), Some(OTHER_PAIR));
    assert_eq!(pool.fee.get_extern_swap_pair_address(WEGLD, USDC), None);
    assert!(pool.fee.can_extern_swap_directly(MEX, USDC));
    assert!(!pool.fee.can_extern_swap_directly(WEGLD, USDC));
    let pairs = pool.fee.get_trusted_swap_pairs();
    assert_eq!(pairs.len(), 1);
    assert_eq!(pairs[0].pair_address, OTHER_PAIR);
    // Removal accepts the reversed ordering too.
    assert_eq!(
        pool.fee.remove_trusted_swap_pair(&pool.config, OWNER, USDC, MEX),
        Ok(())
    );
    assert_eq!(pool.fee.get_extern_swap_pair_address(MEX, USDC), None);
    assert_eq!(
        pool.fee.remove_trusted_swap_pair(&pool.config, OWNER, MEX, USDC),
        Err(AmmError::InvalidArguments)
    );
}

#[test]
fn test_set_fee_on() {
    let mut pool = Pool::new(WEGLD, MEX, OWNER, OWNER, 300, 50, None).unwrap();
    assert!(!pool.fee.is_fee_enabled());
    assert_eq!(
        pool.fee.set_fee_on(&pool.config, USER, true, DEST_A, MEX),
        Err(AmmError::PermissionDenied)
    );
    assert_eq!(pool.fee.set_fee_on(&pool.config, OWNER, true, DEST_A, MEX), Ok(()));
    assert!(pool.fee.is_fee_enabled());
    assert_eq!(
        pool.fee.set_fee_on(&pool.config, OWNER, true, DEST_A, MEX),
        Err(AmmError::InvalidArguments)
    );
    assert_eq!(
        pool.fee.get_fee_destinations(),
        vec![FeeDestination { address: DEST_A, token_id: MEX }]
    );
    // Removal must name the registered asset exactly.
    assert_eq!(
        pool.fee.set_fee_on(&pool.config, OWNER, false, DEST_A, WEGLD),
        Err(AmmError::InvalidArguments)
    );
    assert_eq!(pool.fee.set_fee_on(&pool.config, OWNER, false, DEST_A, MEX), Ok(()));
    assert!(!pool.fee.is_fee_enabled());
    assert_eq!(
        pool.fee.set_fee_on(&pool.config, OWNER, false, DEST_A, MEX),
        Err(AmmError::InvalidArguments)
    );
}

#[test]
fn test_fee_direct_burn_even_split() {
    let mut pool = setup_pool_with_liquidity();
    pool.fee.set_fee_on(&pool.config, OWNER, true, DEST_A, MEX).unwrap();
    pool.fee.set_fee_on(&pool.config, OWNER, true, DEST_B, MEX).unwrap();
    // Swapping 100_000 MEX earmarks 100_000 * 50 / 100_000 = 50 for the
    // destinations; both ask for the fee asset itself, so each slice of
    // 50 / 2 = 25 is burned directly.
    let (out, actions) = pool
        .swap_tokens_fixed_input(TokenPayment::new(MEX, 0, 100_000), WEGLD, 1)
        .unwrap();
    assert_eq!(out.amount, 90_669);
    assert_eq!(
        actions,
        vec![
            FeeAction::Burn { token_id: MEX, amount: 25 },
            FeeAction::Burn { token_id: MEX, amount: 25 },
        ]
    );
    // MEX is the second pool asset: its reserve keeps the input minus the
    // 50 burned for the destinations.
    assert_eq!(pool.config.pair_reserve_second, 1_001_000 + 100_000 - 50);
    assert_eq!(pool.config.pair_reserve_first, 1_001_000 - 90_669);
}

#[test]
fn test_fee_split_remainder_stays_in_reserve() {
    let mut pool = setup_pool_with_liquidity();
    pool.fee.set_fee_on(&pool.config, OWNER, true, DEST_A, MEX).unwrap();
    pool.fee.set_fee_on(&pool.config, OWNER, true, DEST_B, MEX).unwrap();
    pool.fee.set_fee_on(&pool.config, OWNER, true, DEST_C, MEX).unwrap();
    // The fee of 50 splits into three slices of 16; the remainder of 2
    // returns to the reserve.
    let (_, actions) = pool
        .swap_tokens_fixed_input(TokenPayment::new(MEX, 0, 100_000), WEGLD, 1)
        .unwrap();
    assert_eq!(actions.len(), 3);
    let mut distributed = 0u64;
    for a in &actions {
        match a {
            FeeAction::Burn { token_id, amount } => {
                assert_eq!(*token_id, MEX);
                assert_eq!(*amount, 16);
                distributed += amount;
            },
            _ => panic!("unexpected action"),
        }
    }
    assert!(distributed <= 50);
    assert_eq!(pool.config.pair_reserve_second, 1_001_000 + 100_000 - 50 + 2);
}

#[test]
fn test_fee_local_swap_then_burn() {
    let mut pool = setup_pool_with_liquidity();
    pool.fee.set_fee_on(&pool.config, OWNER, true, DEST_A, WEGLD).unwrap();
    // The destination asks for the other pool asset: the slice of 50 MEX
    // is swapped in-pool at the zero-fee price and the result burned.
    let (_, actions) = pool
        .swap_tokens_fixed_input(TokenPayment::new(MEX, 0, 100_000), WEGLD, 1)
        .unwrap();
    // Reserves after the user swap, before fee resolution.
    let mex_reserve: u128 = 1_001_000 + 100_000 - 50;
    let wegld_reserve: u128 = 1_001_000 - 90_669;
    let expected_burn =
        (50u128 * 100_000 * wegld_reserve / (mex_reserve * 100_000 + 50 * 100_000)) as u64;
    assert_eq!(
        actions,
        vec![FeeAction::Burn { token_id: WEGLD, amount: expected_burn }]
    );
    // The slice entered the MEX reserve through the internal swap.
    assert_eq!(pool.config.pair_reserve_second as u128, mex_reserve + 50);
    assert_eq!(pool.config.pair_reserve_first as u128, wegld_reserve - expected_burn as u128);
}

#[test]
fn test_fee_extern_swap_direct() {
    let mut pool = setup_pool_with_liquidity();
    pool.fee.set_fee_on(&pool.config, OWNER, true, DEST_A, USDC).unwrap();
    pool.fee
        .add_trusted_swap_pair(&pool.config, OWNER, OTHER_PAIR, MEX, USDC)
        .unwrap();
    let (_, actions) = pool
        .swap_tokens_fixed_input(TokenPayment::new(MEX, 0, 100_000), WEGLD, 1)
        .unwrap();
    assert_eq!(
        actions,
        vec![FeeAction::ExternSwap {
            pair_address: OTHER_PAIR,
            token_in: MEX,
            token_nonce: 0,
            amount_in: 50,
            token_out: USDC,
            destination: DEST_A,
        }]
    );
    // A forwarded slice leaves the reserves untouched.
    assert_eq!(pool.config.pair_reserve_second, 1_001_000 + 100_000 - 50);
}

#[test]
fn test_fee_extern_swap_after_local_swap() {
    let mut pool = setup_pool_with_liquidity();
    pool.fee.set_fee_on(&pool.config, OWNER, true, DEST_A, USDC).unwrap();
    // Only the pair (WEGLD, USDC) is trusted: the MEX slice must first be
    // swapped locally into WEGLD, then forwarded.
    pool.fee
        .add_trusted_swap_pair(&pool.config, OWNER, OTHER_PAIR, WEGLD, USDC)
        .unwrap();
    let (_, actions) = pool
        .swap_tokens_fixed_input(TokenPayment::new(MEX, 0, 100_000), WEGLD, 1)
        .unwrap();
    let mex_reserve: u128 = 1_001_000 + 100_000 - 50;
    let wegld_reserve: u128 = 1_001_000 - 90_669;
    let expected_forward =
        (50u128 * 100_000 * wegld_reserve / (mex_reserve * 100_000 + 50 * 100_000)) as u64;
    assert_eq!(
        actions,
        vec![FeeAction::ExternSwap {
            pair_address: OTHER_PAIR,
            token_in: WEGLD,
            token_nonce: 0,
            amount_in: expected_forward,
            token_out: USDC,
            destination: DEST_A,
        }]
    );
    assert_eq!(pool.config.pair_reserve_second as u128, mex_reserve + 50);
}

#[test]
fn test_fee_unresolvable_fails_whole_swap() {
    let mut pool = setup_pool_with_liquidity();
    pool.fee.set_fee_on(&pool.config, OWNER, true, DEST_A, MEX).unwrap();
    pool.fee.set_fee_on(&pool.config, OWNER, true, DEST_B, USDC).unwrap();
    let before = pool.config;
    // The second destination's slice has no path: no direct match, no
    // local pair, no trusted counterpart.  The whole swap must fail and
    // nothing may change, the first destination's burn included.
    let r = pool.swap_tokens_fixed_input(TokenPayment::new(MEX, 0, 100_000), WEGLD, 1);
    assert_eq!(r, Err(AmmError::FeeUnresolvable));
    assert_eq!(pool.config, before);
}

#[test]
fn test_swap_no_fee_requires_whitelist() {
    let mut pool = setup_pool_with_liquidity();
    let before = pool.config;
    let r = pool.swap_no_fee(USER, TokenPayment::new(MEX, 0, 1_000), WEGLD, DEST_A);
    assert_eq!(r, Err(AmmError::PermissionDenied));
    assert_eq!(pool.config, before);
}

#[test]
fn test_swap_no_fee_burns_output() {
    let mut pool = setup_pool_with_liquidity();
    pool.fee.whitelist_endpoint(&pool.config, OWNER, USER).unwrap();
    let action = pool
        .swap_no_fee(USER, TokenPayment::new(MEX, 0, 1_000), WEGLD, DEST_A)
        .unwrap();
    // Zero-fee price on reserves of 1_001_000 each.
    let expected = (1_000u128 * 1_001_000 / (1_001_000 + 1_000)) as u64;
    assert_eq!(action, Some(FeeAction::Burn { token_id: WEGLD, amount: expected }));
    assert_eq!(pool.config.pair_reserve_second, 1_001_000 + 1_000);
    assert_eq!(pool.config.pair_reserve_first, 1_001_000 - expected);
}

#[test]
fn test_pair_proxy_builds_forward_call() {
    let proxy = PairProxy { pair_address: OTHER_PAIR };
    let action = proxy.swap_no_fee(MEX, 0, 123, USDC, DEST_A);
    assert_eq!(
        action,
        FeeAction::ExternSwap {
            pair_address: OTHER_PAIR,
            token_in: MEX,
            token_nonce: 0,
            amount_in: 123,
            token_out: USDC,
            destination: DEST_A,
        }
    );
    let entry = TrustedSwapPair {
        token_pair: pair::fee::TokenPair { first_token: MEX, second_token: USDC },
        pair_address: OTHER_PAIR,
    };
    assert_eq!(entry.pair_address, OTHER_PAIR);
}
