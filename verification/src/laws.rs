//! What holds of every query, stated over the query's outcome.

use crate::accounts::{
    address_for, in_request_order, optional_account, requested, AmmKeys, FetchedAccounts,
    FetchedAccountsView, MarketPubkeys, RawAccount,
};
use crate::address::Address;
use crate::authority::{program_address, AUTHORITY_AMM};
use crate::calculator::{exact_vault_in_venue, total_without_take_pnl};
use crate::error::{AccountRole, DecodeError, QueryError};
use crate::pool::{
    parse_pool_state, parse_target_orders, PoolStateView, POOL_STATE_LEN, TARGET_ORDERS_LEN,
};
use crate::query::{orderbook_outcome, query_outcome, vault_amounts, CalculateResult};
use crate::token::{token_amount, TOKEN_ACCOUNT_LEN};
use crate::venue::{
    parse_event_queue, parse_market, parse_open_orders, EventView, MarketView, OpenOrdersView,
    MARKET_LEN, OPEN_ORDERS_LEN, QUEUE_MIN_LEN,
};
use vstd::prelude::*;

verus! {

/// The pool state in the accounts `a`, where the pool's account is there
/// and decodes.
pub open spec fn pool_of(a: FetchedAccountsView) -> PoolStateView {
    parse_pool_state(a.amm_pool->0.data)->Ok_0
}

/// What the two vaults in the accounts `a` hold, quote first, where both
/// are there and decode.
pub open spec fn held_in_vaults(a: FetchedAccountsView) -> (u64, u64) {
    (token_amount(a.amm_pc_vault->0.data)->Ok_0, token_amount(a.amm_coin_vault->0.data)->Ok_0)
}

/// What the venue holds for the pool in the accounts `a`, quote first,
/// where the venue's accounts are there and decode and every pending event
/// can be settled.
pub open spec fn held_at_venue(a: FetchedAccountsView) -> (u64, u64) {
    let open_orders = parse_open_orders(a.amm_open_orders->0.data)->Ok_0;
    exact_vault_in_venue(
        open_orders.native_pc_total,
        open_orders.native_coin_total,
        parse_event_queue(a.market_event_q->0.data)->Ok_0,
        pool_of(a).open_orders,
    )->Ok_0
}

/// For a pool whose mode does not permit the order book, a query that
/// succeeds returns exactly what the two vaults hold.
pub proof fn plain_reserves_are_the_vaults(
    a: FetchedAccountsView,
    authority: Option<Seq<u8>>,
    event_q: Seq<u8>,
)
    requires
        query_outcome(a, authority, event_q) is Ok,
        !pool_of(a).status.permits_orderbook(),
    ensures
        query_outcome(a, authority, event_q)->Ok_0.pool_pc_vault_amount == held_in_vaults(a).0,
        query_outcome(a, authority, event_q)->Ok_0.pool_coin_vault_amount == held_in_vaults(a).1,
        token_amount(a.amm_pc_vault->0.data) is Ok,
        token_amount(a.amm_coin_vault->0.data) is Ok,
{
}

/// A query that succeeds returns the liquidity supply and the swap fee of
/// the pool's state record, whatever the pool's mode.
pub proof fn supply_and_fee_pass_through(
    a: FetchedAccountsView,
    authority: Option<Seq<u8>>,
    event_q: Seq<u8>,
)
    requires
        query_outcome(a, authority, event_q) is Ok,
    ensures
        query_outcome(a, authority, event_q)->Ok_0.pool_lp_amount == pool_of(a).lp_amount,
        query_outcome(a, authority, event_q)->Ok_0.swap_fee_numerator == pool_of(
            a,
        ).swap_fee_numerator,
        query_outcome(a, authority, event_q)->Ok_0.swap_fee_denominator == pool_of(
            a,
        ).swap_fee_denominator,
{
}

/// The two reserves of a pool that may trade on the venue add up to what
/// the vaults hold and what the venue holds, less the operator's profit.
/// So they add up to no less than the vaults alone exactly when the profit
/// is no more than what the venue holds.
pub proof fn reserves_account_for_venue(
    pc_amount: u64,
    coin_amount: u64,
    at_venue: (u64, u64),
    need_take_pnl_pc: u64,
    need_take_pnl_coin: u64,
)
    requires
        total_without_take_pnl(
            pc_amount,
            coin_amount,
            at_venue,
            need_take_pnl_pc,
            need_take_pnl_coin,
        ) is Ok,
    ensures
        ({
            let r = total_without_take_pnl(
                pc_amount,
                coin_amount,
                at_venue,
                need_take_pnl_pc,
                need_take_pnl_coin,
            )->Ok_0;
            &&& r.0 + r.1 == pc_amount + coin_amount + at_venue.0 + at_venue.1 - need_take_pnl_pc
                - need_take_pnl_coin
            &&& r.0 + r.1 >= pc_amount + coin_amount <==> need_take_pnl_pc + need_take_pnl_coin
                <= at_venue.0 + at_venue.1
            &&& need_take_pnl_pc <= at_venue.0 ==> r.0 >= pc_amount
            &&& need_take_pnl_coin <= at_venue.1 ==> r.1 >= coin_amount
        }),
{
}

/// For a pool whose mode permits the order book, a query that succeeds
/// returns reserves that add up to no less than the two vaults hold,
/// where the operator's profit is no more than what the venue holds for
/// the pool.
pub proof fn orderbook_reserves_cover_the_vaults(
    a: FetchedAccountsView,
    authority: Option<Seq<u8>>,
    event_q: Seq<u8>,
)
    requires
        query_outcome(a, authority, event_q) is Ok,
        pool_of(a).status.permits_orderbook(),
        pool_of(a).need_take_pnl_pc + pool_of(a).need_take_pnl_coin <= held_at_venue(a).0
            + held_at_venue(a).1,
    ensures
        query_outcome(a, authority, event_q)->Ok_0.pool_pc_vault_amount + query_outcome(
            a,
            authority,
            event_q,
        )->Ok_0.pool_coin_vault_amount >= held_in_vaults(a).0 + held_in_vaults(a).1,
{
    let open_orders = parse_open_orders(a.amm_open_orders->0.data)->Ok_0;
    let events = parse_event_queue(a.market_event_q->0.data)->Ok_0;
    let pool = pool_of(a);
    assert(orderbook_outcome(a, pool, authority, event_q) is Ok);
    assert(vault_amounts(a) == Ok::<(u64, u64), QueryError>(held_in_vaults(a)));
    reserves_account_for_venue(
        held_in_vaults(a).0,
        held_in_vaults(a).1,
        held_at_venue(a),
        pool.need_take_pnl_pc,
        pool.need_take_pnl_coin,
    );
}

/// Bytes of another length than a record's are never decoded as that
/// record: they are refused for their length. The event queue, whose
/// length a market chooses, is refused where it is shorter than its
/// framing and header.
pub proof fn wrong_length_is_refused(s: Seq<u8>)
    ensures
        s.len() != POOL_STATE_LEN ==> parse_pool_state(s) == Err::<PoolStateView, DecodeError>(
            DecodeError::Length,
        ),
        s.len() != TARGET_ORDERS_LEN ==> parse_target_orders(s) == Err::<(), DecodeError>(
            DecodeError::Length,
        ),
        s.len() != TOKEN_ACCOUNT_LEN ==> token_amount(s) == Err::<u64, DecodeError>(
            DecodeError::Length,
        ),
        s.len() != OPEN_ORDERS_LEN ==> parse_open_orders(s) == Err::<OpenOrdersView, DecodeError>(
            DecodeError::Length,
        ),
        s.len() != MARKET_LEN ==> parse_market(s) == Err::<MarketView, DecodeError>(
            DecodeError::Length,
        ),
        s.len() < QUEUE_MIN_LEN ==> parse_event_queue(s) == Err::<Seq<EventView>, DecodeError>(
            DecodeError::Length,
        ),
{
}

/// Where an account that the query needs is absent, the query fails with
/// a missing account, and so before any calculation. The pool's state, its
/// target orders and its two vaults are needed by every query; the three
/// accounts of the venue are needed where the pool's state decodes to a
/// mode that permits the order book.
pub proof fn absent_needed_account_is_reported(
    a: FetchedAccountsView,
    authority: Option<Seq<u8>>,
    event_q: Seq<u8>,
    role: AccountRole,
)
    requires
        a.account(role) is None,
        role.needed(false) || (a.amm_pool is Some && parse_pool_state(a.amm_pool->0.data) is Ok
            && role.needed(pool_of(a).status.permits_orderbook())),
    ensures
        query_outcome(a, authority, event_q) is Err,
        query_outcome(a, authority, event_q)->Err_0 is MissingAccount,
{
}

/// A query returns a missing account only where an account that it needs
/// is absent, and names an absent one.
pub proof fn reported_account_is_absent(
    a: FetchedAccountsView,
    authority: Option<Seq<u8>>,
    event_q: Seq<u8>,
    role: AccountRole,
)
    requires
        query_outcome(a, authority, event_q) == Err::<CalculateResult, QueryError>(
            QueryError::MissingAccount(role),
        ),
    ensures
        a.account(role) is None,
{
}

/// Two queries on the same accounts, for the same program and the same
/// event queue, have the same outcome.
pub proof fn same_accounts_same_outcome(
    first: FetchedAccounts,
    second: FetchedAccounts,
    first_program: Address,
    second_program: Address,
    first_keys: MarketPubkeys,
    second_keys: MarketPubkeys,
)
    requires
        first@ == second@,
        first_program@ == second_program@,
        first_keys.event_q@ == second_keys.event_q@,
    ensures
        query_outcome(
            first@,
            program_address(AUTHORITY_AMM@, first_program@),
            first_keys.event_q@,
        ) == query_outcome(
            second@,
            program_address(AUTHORITY_AMM@, second_program@),
            second_keys.event_q@,
        ),
{
}

/// The answers of a batched read are named in the order of the request:
/// the account for a role is the answer in the place where the role's
/// address was requested.
pub proof fn answers_follow_the_request(
    rsps: Seq<Option<RawAccount>>,
    amm_pool_key: Address,
    amm_keys: AmmKeys,
    market_keys: MarketPubkeys,
    role: AccountRole,
)
    requires
        rsps.len() == 7,
    ensures
        0 <= role.index() < 7,
        in_request_order(rsps)@.account(role) == optional_account(rsps[role.index()]),
        requested(amm_pool_key, amm_keys, market_keys)[role.index()] == address_for(
            role,
            amm_pool_key,
            amm_keys,
            market_keys,
        ),
{
}

} // verus!
