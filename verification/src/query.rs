//! The pool reserve query: from one batched read of seven accounts to the
//! pool's reserves.
//!
//! The caller asks the ledger for the accounts at
//! [`load_pubkeys`](crate::accounts::load_pubkeys), all in one request, and
//! hands what came back to [`calculate_pool_vault_amounts`]. Nothing is read
//! twice and nothing is kept between two queries.

use crate::accounts::{FetchedAccounts, FetchedAccountsView, MarketPubkeys, RawAccount};
use crate::address::Address;
use crate::authority::{amm_authority, optional_address, program_address, AUTHORITY_AMM};
use crate::calculator::{
    calc_total_without_take_pnl, calc_total_without_take_pnl_no_orderbook, total_with_orderbook,
};
use crate::error::{AccountRole, CalculationError, QueryError};
use crate::pool::{
    check_target_orders, decode_pool_state, parse_pool_state, parse_target_orders, PoolState,
    PoolStateView,
};
use crate::token::{decode_token_amount, token_amount};
use crate::venue::{
    decode_event_queue, decode_market, decode_open_orders, parse_event_queue, parse_market,
    parse_open_orders, Event, Market, MarketView, OpenOrders, OpenOrdersView,
};
use vstd::prelude::*;

verus! {

/// The reserves of a pool, with the liquidity supply and the swap fee that
/// its state record carries.
#[derive(Clone, Copy, Debug, PartialEq, Eq)]
pub struct CalculateResult {
    /// The quote-token reserve.
    pub pool_pc_vault_amount: u64,
    /// The base-token reserve.
    pub pool_coin_vault_amount: u64,
    /// The supply of liquidity tokens.
    pub pool_lp_amount: u64,
    pub swap_fee_numerator: u64,
    pub swap_fee_denominator: u64,
}

/// The first absent account among those that every query needs.
pub open spec fn missing_before_mode(a: FetchedAccountsView) -> Option<AccountRole> {
    if a.amm_pool is None {
        Some(AccountRole::Pool)
    } else if a.amm_target is None {
        Some(AccountRole::TargetOrders)
    } else if a.amm_pc_vault is None {
        Some(AccountRole::PcVault)
    } else if a.amm_coin_vault is None {
        Some(AccountRole::CoinVault)
    } else {
        None
    }
}

/// The first absent account among those of the order book venue.
pub open spec fn missing_for_orderbook(a: FetchedAccountsView) -> Option<AccountRole> {
    if a.amm_open_orders is None {
        Some(AccountRole::OpenOrders)
    } else if a.market is None {
        Some(AccountRole::Market)
    } else if a.market_event_q is None {
        Some(AccountRole::EventQueue)
    } else {
        None
    }
}

/// What the two vaults hold, quote first, once the target-orders record
/// has been checked.
pub open spec fn vault_amounts(a: FetchedAccountsView) -> Result<(u64, u64), QueryError> {
    match parse_target_orders(a.amm_target->0.data) {
        Err(e) => Err(QueryError::Decode(AccountRole::TargetOrders, e)),
        Ok(_) => match token_amount(a.amm_pc_vault->0.data) {
            Err(e) => Err(QueryError::Decode(AccountRole::PcVault, e)),
            Ok(pc) => match token_amount(a.amm_coin_vault->0.data) {
                Err(e) => Err(QueryError::Decode(AccountRole::CoinVault, e)),
                Ok(coin) => Ok((pc, coin)),
            },
        },
    }
}

/// The result for a pool and its two reserves, quote first: the liquidity
/// supply and the swap fee are those of the pool's state record.
pub open spec fn assemble(pool: PoolStateView, reserves: (u64, u64)) -> CalculateResult {
    CalculateResult {
        pool_pc_vault_amount: reserves.0,
        pool_coin_vault_amount: reserves.1,
        pool_lp_amount: pool.lp_amount,
        swap_fee_numerator: pool.swap_fee_numerator,
        swap_fee_denominator: pool.swap_fee_denominator,
    }
}

/// Whether the records of the venue belong to the pool and to each other:
/// the venue's program owns the market and the open-orders account, the
/// open orders rest in that market and belong to the pool's authority, and
/// the market's event queue is the one that was read.
pub open spec fn orderbook_linked(
    a: FetchedAccountsView,
    pool: PoolStateView,
    open_orders: OpenOrdersView,
    market: MarketView,
    authority: Option<Seq<u8>>,
    event_q: Seq<u8>,
) -> bool {
    &&& a.market->0.owner == pool.market_program
    &&& a.amm_open_orders->0.owner == pool.market_program
    &&& open_orders.market == market.own_address
    &&& authority == Some(open_orders.owner)
    &&& market.event_q == event_q
}

/// The outcome of a query on a pool that may not trade on the venue.
pub open spec fn plain_outcome(a: FetchedAccountsView, pool: PoolStateView) -> Result<
    CalculateResult,
    QueryError,
> {
    match vault_amounts(a) {
        Err(e) => Err(e),
        Ok(amounts) => Ok(assemble(pool, amounts)),
    }
}

/// The outcome of a query on a pool that may trade on the venue.
pub open spec fn orderbook_outcome(
    a: FetchedAccountsView,
    pool: PoolStateView,
    authority: Option<Seq<u8>>,
    event_q: Seq<u8>,
) -> Result<CalculateResult, QueryError> {
    if missing_for_orderbook(a) is Some {
        Err(QueryError::MissingAccount(missing_for_orderbook(a)->0))
    } else {
        match vault_amounts(a) {
            Err(e) => Err(e),
            Ok(amounts) => match parse_open_orders(a.amm_open_orders->0.data) {
                Err(e) => Err(QueryError::Decode(AccountRole::OpenOrders, e)),
                Ok(open_orders) => match parse_market(a.market->0.data) {
                    Err(e) => Err(QueryError::Decode(AccountRole::Market, e)),
                    Ok(market) => match parse_event_queue(a.market_event_q->0.data) {
                        Err(e) => Err(QueryError::Decode(AccountRole::EventQueue, e)),
                        Ok(events) => if !orderbook_linked(
                            a,
                            pool,
                            open_orders,
                            market,
                            authority,
                            event_q,
                        ) {
                            Err(QueryError::Calculation(CalculationError::InvalidOrderBook))
                        } else {
                            match total_with_orderbook(
                                amounts.0,
                                amounts.1,
                                open_orders.native_pc_total,
                                open_orders.native_coin_total,
                                events,
                                pool.open_orders,
                                pool.need_take_pnl_pc,
                                pool.need_take_pnl_coin,
                            ) {
                                Err(e) => Err(QueryError::Calculation(e)),
                                Ok(reserves) => Ok(assemble(pool, reserves)),
                            }
                        },
                    },
                },
            },
        }
    }
}

/// The outcome of a query: what [`calculate_pool_vault_amounts`] returns
/// for the accounts `a`, the authority of the pool's program and the
/// address of the market's event queue.
///
/// An absent account that the query needs is reported before any decoding
/// error of another account; the pool's state is decoded in between, since
/// its mode says whether the venue's accounts are needed.
pub open spec fn query_outcome(
    a: FetchedAccountsView,
    authority: Option<Seq<u8>>,
    event_q: Seq<u8>,
) -> Result<CalculateResult, QueryError> {
    if missing_before_mode(a) is Some {
        Err(QueryError::MissingAccount(missing_before_mode(a)->0))
    } else {
        match parse_pool_state(a.amm_pool->0.data) {
            Err(e) => Err(QueryError::Decode(AccountRole::Pool, e)),
            Ok(pool) => if pool.status.permits_orderbook() {
                orderbook_outcome(a, pool, authority, event_q)
            } else {
                plain_outcome(a, pool)
            },
        }
    }
}

/// Decodes the two vaults, quote first, after checking the target-orders
/// record.
fn read_vault_amounts(accounts: &FetchedAccounts) -> (r: Result<(u64, u64), QueryError>)
    requires
        missing_before_mode(accounts@) is None,
    ensures
        r == vault_amounts(accounts@),
{
    match (&accounts.amm_target, &accounts.amm_pc_vault, &accounts.amm_coin_vault) {
        (Some(target), Some(pc_vault), Some(coin_vault)) => {
            match check_target_orders(target.data.as_slice()) {
                Err(e) => Err(QueryError::Decode(AccountRole::TargetOrders, e)),
                Ok(_) => match decode_token_amount(pc_vault.data.as_slice()) {
                    Err(e) => Err(QueryError::Decode(AccountRole::PcVault, e)),
                    Ok(pc) => match decode_token_amount(coin_vault.data.as_slice()) {
                        Err(e) => Err(QueryError::Decode(AccountRole::CoinVault, e)),
                        Ok(coin) => Ok((pc, coin)),
                    },
                },
            }
        },
        _ => Err(QueryError::MissingAccount(AccountRole::TargetOrders)),
    }
}

/// Puts a pool's reserves, quote first, together with the liquidity supply
/// and the swap fee of its state record.
fn assemble_result(pool: &PoolState, reserves: (u64, u64)) -> (r: CalculateResult)
    ensures
        r == assemble(pool@, reserves),
{
    CalculateResult {
        pool_pc_vault_amount: reserves.0,
        pool_coin_vault_amount: reserves.1,
        pool_lp_amount: pool.lp_amount,
        swap_fee_numerator: pool.swap_fee_numerator,
        swap_fee_denominator: pool.swap_fee_denominator,
    }
}

/// Whether the records of the venue belong to the pool and to each other.
fn is_orderbook_linked(
    market_account: &RawAccount,
    open_orders_account: &RawAccount,
    pool: &PoolState,
    open_orders: &OpenOrders,
    market: &Market,
    amm_authority: &Option<Address>,
    event_q: &Address,
) -> (r: bool)
    ensures
        r == {
            &&& market_account.owner@ == pool.market_program@
            &&& open_orders_account.owner@ == pool.market_program@
            &&& open_orders.market@ == market.own_address@
            &&& optional_address(*amm_authority) == Some(open_orders.owner@)
            &&& market.event_q@ == event_q@
        },
{
    let owned_by_authority: bool = match amm_authority {
        Some(authority) => authority.same(&open_orders.owner),
        None => false,
    };
    market_account.owner.same(&pool.market_program) && open_orders_account.owner.same(
        &pool.market_program,
    ) && open_orders.market.same(&market.own_address) && owned_by_authority
        && market.event_q.same(event_q)
}

/// The query on a pool whose mode permits the order book.
fn orderbook_reserves(
    accounts: &FetchedAccounts,
    pool: &PoolState,
    amm_authority: &Option<Address>,
    event_q: &Address,
) -> (r: Result<CalculateResult, QueryError>)
    requires
        missing_before_mode(accounts@) is None,
    ensures
        r == orderbook_outcome(accounts@, pool@, optional_address(*amm_authority), event_q@),
{
    let open_orders_account: &RawAccount = match &accounts.amm_open_orders {
        Some(account) => account,
        None => {
            return Err(QueryError::MissingAccount(AccountRole::OpenOrders));
        },
    };
    let market_account: &RawAccount = match &accounts.market {
        Some(account) => account,
        None => {
            return Err(QueryError::MissingAccount(AccountRole::Market));
        },
    };
    let event_q_account: &RawAccount = match &accounts.market_event_q {
        Some(account) => account,
        None => {
            return Err(QueryError::MissingAccount(AccountRole::EventQueue));
        },
    };
    let (pc_amount, coin_amount) = match read_vault_amounts(accounts) {
        Ok(amounts) => amounts,
        Err(e) => {
            return Err(e);
        },
    };
    let open_orders: OpenOrders = match decode_open_orders(open_orders_account.data.as_slice()) {
        Ok(open_orders) => open_orders,
        Err(e) => {
            return Err(QueryError::Decode(AccountRole::OpenOrders, e));
        },
    };
    let market: Market = match decode_market(market_account.data.as_slice()) {
        Ok(market) => market,
        Err(e) => {
            return Err(QueryError::Decode(AccountRole::Market, e));
        },
    };
    let events: Vec<Event> = match decode_event_queue(event_q_account.data.as_slice()) {
        Ok(events) => events,
        Err(e) => {
            return Err(QueryError::Decode(AccountRole::EventQueue, e));
        },
    };
    if !is_orderbook_linked(
        market_account,
        open_orders_account,
        pool,
        &open_orders,
        &market,
        amm_authority,
        event_q,
    ) {
        return Err(QueryError::Calculation(CalculationError::InvalidOrderBook));
    }
    match calc_total_without_take_pnl(pc_amount, coin_amount, &open_orders, pool, &events) {
        Err(e) => Err(QueryError::Calculation(e)),
        Ok(reserves) => Ok(assemble_result(pool, reserves)),
    }
}

/// Computes a pool's reserves from one batched read, given the authority
/// of the pool's program.
///
/// The accounts are those at the addresses of [`load_pubkeys`], and
/// `amm_authority` is what [`amm_authority`] derives from the program's
/// address, `None` where it derives nothing.
pub fn calculate_with_authority(
    accounts: &FetchedAccounts,
    amm_authority: &Option<Address>,
    market_keys: &MarketPubkeys,
) -> (r: Result<CalculateResult, QueryError>)
    ensures
        r == query_outcome(accounts@, optional_address(*amm_authority), market_keys.event_q@),
{
    let pool_account: &RawAccount = match &accounts.amm_pool {
        Some(account) => account,
        None => {
            return Err(QueryError::MissingAccount(AccountRole::Pool));
        },
    };
    if accounts.amm_target.is_none() {
        return Err(QueryError::MissingAccount(AccountRole::TargetOrders));
    }
    if accounts.amm_pc_vault.is_none() {
        return Err(QueryError::MissingAccount(AccountRole::PcVault));
    }
    if accounts.amm_coin_vault.is_none() {
        return Err(QueryError::MissingAccount(AccountRole::CoinVault));
    }
    let pool: PoolState = match decode_pool_state(pool_account.data.as_slice()) {
        Ok(pool) => pool,
        Err(e) => {
            return Err(QueryError::Decode(AccountRole::Pool, e));
        },
    };
    if pool.status.orderbook_permission() {
        orderbook_reserves(accounts, &pool, amm_authority, &market_keys.event_q)
    } else {
        match read_vault_amounts(accounts) {
            Err(e) => Err(e),
            Ok((pc_amount, coin_amount)) => Ok(
                assemble_result(
                    &pool,
                    calc_total_without_take_pnl_no_orderbook(pc_amount, coin_amount),
                ),
            ),
        }
    }
}

/// Computes a pool's reserves from one batched read of the accounts at
/// the addresses of [`load_pubkeys`].
///
/// `amm_program_key` is the address of the pool's program, from which the
/// authority of its pools is derived.
pub fn calculate_pool_vault_amounts(
    accounts: &FetchedAccounts,
    amm_program_key: &Address,
    market_keys: &MarketPubkeys,
) -> (r: Result<CalculateResult, QueryError>)
    ensures
        r == query_outcome(
            accounts@,
            program_address(AUTHORITY_AMM@, amm_program_key@),
            market_keys.event_q@,
        ),
{
    let authority: Option<Address> = amm_authority(amm_program_key);
    calculate_with_authority(accounts, &authority, market_keys)
}

} // verus!
