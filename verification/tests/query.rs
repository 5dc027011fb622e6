use amm_reserves::authority::{amm_authority, AUTHORITY_AMM};
use amm_reserves::error::{AccountRole, CalculationError, DecodeError, QueryError};
use amm_reserves::address::Address;
use amm_reserves::accounts::{load_pubkeys, AmmKeys, FetchedAccounts, MarketPubkeys, RawAccount};
use amm_reserves::query::{
    calculate_pool_vault_amounts, calculate_with_authority, CalculateResult,
};
use solana_program::pubkey::Pubkey;
use std::str::FromStr;

const PROGRAM: [u8; 32] = [21u8; 32];
const VENUE_PROGRAM: [u8; 32] = [6u8; 32];
const TOKEN_PROGRAM: [u8; 32] = [22u8; 32];
const OPEN_ORDERS_KEY: [u8; 32] = [4u8; 32];
const MARKET_KEY: [u8; 32] = [5u8; 32];
const EVENT_Q_KEY: [u8; 32] = [7u8; 32];

fn put_u64(data: &mut [u8], at: usize, value: u64) {
    data[at..at + 8].copy_from_slice(&value.to_le_bytes());
}

fn pool_data(status: u64, pnl_pc: u64, pnl_coin: u64, lp: u64, fee: (u64, u64)) -> Vec<u8> {
    let mut data = vec![0u8; 752];
    put_u64(&mut data, 0, status);
    put_u64(&mut data, 176, fee.0);
    put_u64(&mut data, 184, fee.1);
    put_u64(&mut data, 192, pnl_coin);
    put_u64(&mut data, 200, pnl_pc);
    data[496..528].copy_from_slice(&OPEN_ORDERS_KEY);
    data[528..560].copy_from_slice(&MARKET_KEY);
    data[560..592].copy_from_slice(&VENUE_PROGRAM);
    put_u64(&mut data, 720, lp);
    data
}

fn token_data(amount: u64) -> Vec<u8> {
    let mut data = vec![0u8; 165];
    put_u64(&mut data, 64, amount);
    data[108] = 1;
    data
}

fn framed(len: usize, flags: u64) -> Vec<u8> {
    let mut data = vec![0u8; len];
    data[0..5].copy_from_slice(b"serum");
    data[len - 7..].copy_from_slice(b"padding");
    put_u64(&mut data, 5, flags);
    data
}

fn market_data(own_address: [u8; 32], event_q: [u8; 32]) -> Vec<u8> {
    let mut data = framed(388, 3);
    data[13..45].copy_from_slice(&own_address);
    data[253..285].copy_from_slice(&event_q);
    data
}

fn open_orders_data(market: [u8; 32], owner: [u8; 32], coin_total: u64, pc_total: u64) -> Vec<u8> {
    let mut data = framed(3228, 5);
    data[13..45].copy_from_slice(&market);
    data[45..77].copy_from_slice(&owner);
    put_u64(&mut data, 85, coin_total);
    put_u64(&mut data, 101, pc_total);
    data
}

fn queue_data(events: &[(u8, [u8; 32], u64, u64)]) -> Vec<u8> {
    let mut data = framed(44 + 88 * events.len(), 17);
    put_u64(&mut data, 13, 0);
    put_u64(&mut data, 21, events.len() as u64);
    for (i, (flags, owner, released, paid)) in events.iter().enumerate() {
        let at = 37 + 88 * i;
        data[at] = *flags;
        put_u64(&mut data, at + 8, *released);
        put_u64(&mut data, at + 16, *paid);
        data[at + 48..at + 80].copy_from_slice(owner);
    }
    data
}

fn account(owner: [u8; 32], data: Vec<u8>) -> Option<RawAccount> {
    Some(RawAccount { owner: Address::new(owner), data })
}

fn authority() -> Address {
    amm_authority(&Address::new(PROGRAM)).unwrap()
}

fn market_keys() -> MarketPubkeys {
    MarketPubkeys { event_q: Address::new(EVENT_Q_KEY) }
}

fn plain_accounts(status: u64) -> FetchedAccounts {
    FetchedAccounts {
        amm_pool: account(PROGRAM, pool_data(status, 0, 0, 10_000, (25, 10_000))),
        amm_target: account(PROGRAM, vec![0u8; 2208]),
        amm_pc_vault: account(TOKEN_PROGRAM, token_data(1_000_000)),
        amm_coin_vault: account(TOKEN_PROGRAM, token_data(50_000)),
        amm_open_orders: None,
        market: None,
        market_event_q: None,
    }
}

fn orderbook_accounts(pnl_pc: u64, pnl_coin: u64) -> FetchedAccounts {
    FetchedAccounts {
        amm_pool: account(PROGRAM, pool_data(1, pnl_pc, pnl_coin, 10_000, (25, 10_000))),
        amm_target: account(PROGRAM, vec![0u8; 2208]),
        amm_pc_vault: account(TOKEN_PROGRAM, token_data(1_000_000)),
        amm_coin_vault: account(TOKEN_PROGRAM, token_data(50_000)),
        amm_open_orders: account(
            VENUE_PROGRAM,
            open_orders_data(MARKET_KEY, authority().bytes, 400, 500),
        ),
        market: account(VENUE_PROGRAM, market_data(MARKET_KEY, EVENT_Q_KEY)),
        market_event_q: account(
            VENUE_PROGRAM,
            queue_data(&[(1 | 4 | 8, OPEN_ORDERS_KEY, 30, 120), (1 | 8, [9u8; 32], 1, 1)]),
        ),
    }
}

fn query(accounts: &FetchedAccounts) -> Result<CalculateResult, QueryError> {
    calculate_pool_vault_amounts(accounts, &Address::new(PROGRAM), &market_keys())
}

#[test]
fn seven_addresses_are_requested_in_order() {
    let keys = AmmKeys {
        amm_target: Address::new([1u8; 32]),
        amm_pc_vault: Address::new([2u8; 32]),
        amm_coin_vault: Address::new([3u8; 32]),
        amm_open_order: Address::new([4u8; 32]),
        market: Address::new([5u8; 32]),
    };
    let requested = load_pubkeys(&Address::new([0u8; 32]), &keys, &MarketPubkeys { event_q: Address::new([6u8; 32]) });
    let first_bytes: Vec<u8> = requested.iter().map(|a| a.bytes[0]).collect();
    assert_eq!(first_bytes, vec![0, 1, 2, 3, 4, 5, 6]);
}

#[test]
fn answers_are_named_in_order() {
    let rsps: Vec<Option<RawAccount>> =
        (0..7u8).map(|i| account([i; 32], vec![i; i as usize])).collect();
    let accounts = FetchedAccounts::from_ordered(rsps.clone()).unwrap();
    assert_eq!(accounts.amm_pool, rsps[0]);
    assert_eq!(accounts.amm_target, rsps[1]);
    assert_eq!(accounts.amm_pc_vault, rsps[2]);
    assert_eq!(accounts.amm_coin_vault, rsps[3]);
    assert_eq!(accounts.amm_open_orders, rsps[4]);
    assert_eq!(accounts.market, rsps[5]);
    assert_eq!(accounts.market_event_q, rsps[6]);
    let mut with_gaps = rsps.clone();
    with_gaps[4] = None;
    with_gaps[0] = None;
    let accounts = FetchedAccounts::from_ordered(with_gaps).unwrap();
    assert_eq!(accounts.amm_pool, None);
    assert_eq!(accounts.amm_open_orders, None);
    assert_eq!(accounts.market, rsps[5]);
}

#[test]
fn answers_of_another_length_are_refused() {
    let rsps: Vec<Option<RawAccount>> = (0..7u8).map(|i| account([i; 32], vec![i])).collect();
    assert_eq!(FetchedAccounts::from_ordered(rsps[..6].to_vec()), None);
    assert_eq!(FetchedAccounts::from_ordered(vec![]), None);
    let mut longer = rsps.clone();
    longer.push(None);
    assert_eq!(FetchedAccounts::from_ordered(longer), None);
}

#[test]
fn authority_is_the_program_derived_address() {
    assert_eq!(&AUTHORITY_AMM, b"amm authority");
    let program = Pubkey::new_from_array(PROGRAM);
    let expected = Pubkey::find_program_address(&[b"amm authority"], &program).0;
    assert_eq!(amm_authority(&Address::new(PROGRAM)), Some(Address::new(expected.to_bytes())));
    assert_ne!(authority(), Address::new(PROGRAM));
    assert_ne!(authority(), amm_authority(&Address::new([23u8; 32])).unwrap());
}

#[test]
fn authority_of_a_known_program() {
    let program = Pubkey::from_str("675kPX9MHTjS2zt1qfr1NYHuzeLXfQM9H24wFSUt1Mp8").unwrap();
    let authority = Pubkey::from_str("5Q544fKrFoe6tsEbD7S8EmxGTJYAKtTVhAW5Q5pge4j1").unwrap();
    assert_eq!(
        amm_authority(&Address::new(program.to_bytes())),
        Some(Address::new(authority.to_bytes()))
    );
}

#[test]
fn no_orderbook_pool_scenario() {
    let expected = CalculateResult {
        pool_pc_vault_amount: 1_000_000,
        pool_coin_vault_amount: 50_000,
        pool_lp_amount: 10_000,
        swap_fee_numerator: 25,
        swap_fee_denominator: 10_000,
    };
    assert_eq!(query(&plain_accounts(6)), Ok(expected));
    assert_eq!(calculate_with_authority(&plain_accounts(6), &None, &market_keys()), Ok(expected));
}

#[test]
fn no_orderbook_reserves_are_the_vault_amounts_in_every_such_mode() {
    for status in [0u64, 2, 3, 4, 6, 7] {
        let result = query(&plain_accounts(status)).unwrap();
        assert_eq!(result.pool_pc_vault_amount, 1_000_000, "mode {status}");
        assert_eq!(result.pool_coin_vault_amount, 50_000, "mode {status}");
    }
}

#[test]
fn no_orderbook_pool_ignores_the_operator_profit_and_the_venue() {
    let mut accounts = orderbook_accounts(900, 800);
    accounts.amm_pool = account(PROGRAM, pool_data(6, 900, 800, 77, (3, 4)));
    accounts.market = account([0u8; 32], vec![1, 2, 3]);
    let result = query(&accounts).unwrap();
    assert_eq!(
        result,
        CalculateResult {
            pool_pc_vault_amount: 1_000_000,
            pool_coin_vault_amount: 50_000,
            pool_lp_amount: 77,
            swap_fee_numerator: 3,
            swap_fee_denominator: 4,
        }
    );
}

#[test]
fn orderbook_pool_without_open_orders_scenario() {
    let mut accounts = orderbook_accounts(0, 0);
    accounts.amm_open_orders = None;
    assert_eq!(query(&accounts), Err(QueryError::MissingAccount(AccountRole::OpenOrders)));
    assert_eq!(query(&plain_accounts(1)), Err(QueryError::MissingAccount(AccountRole::OpenOrders)));
    assert_eq!(query(&plain_accounts(5)), Err(QueryError::MissingAccount(AccountRole::OpenOrders)));
}

#[test]
fn orderbook_pool_reserves() {
    let result = query(&orderbook_accounts(80, 30)).unwrap();
    assert_eq!(
        result,
        CalculateResult {
            pool_pc_vault_amount: 1_000_000 + (500 - 120) - 80,
            pool_coin_vault_amount: 50_000 + (400 + 30) - 30,
            pool_lp_amount: 10_000,
            swap_fee_numerator: 25,
            swap_fee_denominator: 10_000,
        }
    );
    assert_eq!(
        calculate_with_authority(&orderbook_accounts(80, 30), &Some(authority()), &market_keys()),
        Ok(result)
    );
}

#[test]
fn orderbook_pool_reserves_cover_the_vaults() {
    let result = query(&orderbook_accounts(0, 0)).unwrap();
    assert!(result.pool_pc_vault_amount + result.pool_coin_vault_amount >= 1_000_000 + 50_000);
    assert_eq!(result.pool_pc_vault_amount, 1_000_380);
    assert_eq!(result.pool_coin_vault_amount, 50_430);
    let result = query(&orderbook_accounts(380, 430)).unwrap();
    assert_eq!(result.pool_pc_vault_amount + result.pool_coin_vault_amount, 1_000_000 + 50_000);
}

#[test]
fn each_absent_account_is_reported() {
    let mut accounts = orderbook_accounts(0, 0);
    accounts.market_event_q = None;
    assert_eq!(query(&accounts), Err(QueryError::MissingAccount(AccountRole::EventQueue)));
    accounts.market = None;
    assert_eq!(query(&accounts), Err(QueryError::MissingAccount(AccountRole::Market)));
    accounts.amm_open_orders = None;
    assert_eq!(query(&accounts), Err(QueryError::MissingAccount(AccountRole::OpenOrders)));
    accounts.amm_coin_vault = None;
    assert_eq!(query(&accounts), Err(QueryError::MissingAccount(AccountRole::CoinVault)));
    accounts.amm_pc_vault = None;
    assert_eq!(query(&accounts), Err(QueryError::MissingAccount(AccountRole::PcVault)));
    accounts.amm_target = None;
    assert_eq!(query(&accounts), Err(QueryError::MissingAccount(AccountRole::TargetOrders)));
    accounts.amm_pool = None;
    assert_eq!(query(&accounts), Err(QueryError::MissingAccount(AccountRole::Pool)));
}

#[test]
fn absent_account_is_reported_before_a_malformed_one() {
    let mut accounts = orderbook_accounts(0, 0);
    accounts.amm_pc_vault = account(TOKEN_PROGRAM, vec![0u8; 10]);
    accounts.market = None;
    assert_eq!(query(&accounts), Err(QueryError::MissingAccount(AccountRole::Market)));
    let mut accounts = plain_accounts(6);
    accounts.amm_pool = account(PROGRAM, vec![0u8; 10]);
    accounts.amm_coin_vault = None;
    assert_eq!(query(&accounts), Err(QueryError::MissingAccount(AccountRole::CoinVault)));
}

#[test]
fn venue_accounts_are_not_needed_without_orderbook() {
    let accounts = plain_accounts(6);
    assert!(accounts.amm_open_orders.is_none() && accounts.market.is_none());
    assert!(query(&accounts).is_ok());
}

#[test]
fn each_malformed_account_is_reported() {
    let mut accounts = orderbook_accounts(0, 0);
    accounts.market_event_q = account(VENUE_PROGRAM, vec![0u8; 43]);
    assert_eq!(query(&accounts), Err(QueryError::Decode(AccountRole::EventQueue, DecodeError::Length)));
    accounts.market_event_q = account(VENUE_PROGRAM, vec![0u8; 44]);
    assert_eq!(query(&accounts), Err(QueryError::Decode(AccountRole::EventQueue, DecodeError::Layout)));
    accounts.market = account(VENUE_PROGRAM, vec![0u8; 389]);
    assert_eq!(query(&accounts), Err(QueryError::Decode(AccountRole::Market, DecodeError::Length)));
    accounts.market = account(VENUE_PROGRAM, vec![0u8; 388]);
    assert_eq!(query(&accounts), Err(QueryError::Decode(AccountRole::Market, DecodeError::Layout)));
    accounts.amm_open_orders = account(VENUE_PROGRAM, vec![0u8; 3227]);
    assert_eq!(query(&accounts), Err(QueryError::Decode(AccountRole::OpenOrders, DecodeError::Length)));
    accounts.amm_open_orders = account(VENUE_PROGRAM, vec![0u8; 3228]);
    assert_eq!(query(&accounts), Err(QueryError::Decode(AccountRole::OpenOrders, DecodeError::Layout)));
    accounts.amm_coin_vault = account(TOKEN_PROGRAM, vec![0u8; 166]);
    assert_eq!(query(&accounts), Err(QueryError::Decode(AccountRole::CoinVault, DecodeError::Length)));
    accounts.amm_coin_vault = account(TOKEN_PROGRAM, vec![0u8; 165]);
    assert_eq!(query(&accounts), Err(QueryError::Decode(AccountRole::CoinVault, DecodeError::Layout)));
    accounts.amm_pc_vault = account(TOKEN_PROGRAM, vec![0u8; 164]);
    assert_eq!(query(&accounts), Err(QueryError::Decode(AccountRole::PcVault, DecodeError::Length)));
    accounts.amm_pc_vault = account(TOKEN_PROGRAM, vec![0u8; 165]);
    assert_eq!(query(&accounts), Err(QueryError::Decode(AccountRole::PcVault, DecodeError::Layout)));
    accounts.amm_target = account(PROGRAM, vec![0u8; 2216]);
    assert_eq!(query(&accounts), Err(QueryError::Decode(AccountRole::TargetOrders, DecodeError::Length)));
    accounts.amm_pool = account(PROGRAM, pool_data(8, 0, 0, 1, (1, 1)));
    assert_eq!(query(&accounts), Err(QueryError::Decode(AccountRole::Pool, DecodeError::Layout)));
    accounts.amm_pool = account(PROGRAM, vec![0u8; 736]);
    assert_eq!(query(&accounts), Err(QueryError::Decode(AccountRole::Pool, DecodeError::Length)));
}

#[test]
fn unlinked_orderbook_is_refused() {
    let invalid = Err(QueryError::Calculation(CalculationError::InvalidOrderBook));
    assert!(query(&orderbook_accounts(0, 0)).is_ok());

    let mut accounts = orderbook_accounts(0, 0);
    accounts.market.as_mut().unwrap().owner = Address::new([1u8; 32]);
    assert_eq!(query(&accounts), invalid);

    let mut accounts = orderbook_accounts(0, 0);
    accounts.amm_open_orders.as_mut().unwrap().owner = Address::new([1u8; 32]);
    assert_eq!(query(&accounts), invalid);

    let mut accounts = orderbook_accounts(0, 0);
    accounts.amm_open_orders =
        account(VENUE_PROGRAM, open_orders_data([1u8; 32], authority().bytes, 400, 500));
    assert_eq!(query(&accounts), invalid);

    let mut accounts = orderbook_accounts(0, 0);
    accounts.amm_open_orders = account(VENUE_PROGRAM, open_orders_data(MARKET_KEY, PROGRAM, 400, 500));
    assert_eq!(query(&accounts), invalid);

    let mut accounts = orderbook_accounts(0, 0);
    accounts.market = account(VENUE_PROGRAM, market_data(MARKET_KEY, [1u8; 32]));
    assert_eq!(query(&accounts), invalid);

    let accounts = orderbook_accounts(0, 0);
    let other_queue = MarketPubkeys { event_q: Address::new([1u8; 32]) };
    assert_eq!(calculate_pool_vault_amounts(&accounts, &Address::new(PROGRAM), &other_queue), invalid);
    assert_eq!(calculate_pool_vault_amounts(&accounts, &Address::new([1u8; 32]), &market_keys()), invalid);
    assert_eq!(calculate_with_authority(&accounts, &None, &market_keys()), invalid);
    assert_eq!(
        calculate_with_authority(&accounts, &Some(Address::new(PROGRAM)), &market_keys()),
        invalid
    );
}

#[test]
fn arithmetic_errors_are_reported() {
    assert_eq!(
        query(&orderbook_accounts(1_000_381, 0)),
        Err(QueryError::Calculation(CalculationError::SubUnderflow))
    );
    assert_eq!(
        query(&orderbook_accounts(0, 50_431)),
        Err(QueryError::Calculation(CalculationError::SubUnderflow))
    );
    let mut accounts = orderbook_accounts(0, 0);
    accounts.amm_pc_vault = account(TOKEN_PROGRAM, token_data(u64::MAX));
    assert_eq!(query(&accounts), Err(QueryError::Calculation(CalculationError::AddOverflow)));
    let mut accounts = orderbook_accounts(0, 0);
    accounts.market_event_q =
        account(VENUE_PROGRAM, queue_data(&[(1 | 4 | 8, OPEN_ORDERS_KEY, 30, 501)]));
    assert_eq!(query(&accounts), Err(QueryError::Calculation(CalculationError::SubUnderflow)));
}

#[test]
fn repeated_query_gives_the_same_result() {
    for accounts in [plain_accounts(6), orderbook_accounts(80, 30), plain_accounts(1)] {
        let first = query(&accounts);
        let second = query(&accounts.clone());
        assert_eq!(first, second);
    }
}
