//! The reserve calculator: what a pool holds for its liquidity providers.
//!
//! A pool holds a quote token ("pc") and a base token ("coin"). Its
//! vaults hold most of both. A pool that may trade on the order book
//! venue has moved part of them there, and owes part of the whole to its
//! operator as profit not yet taken.

use crate::address::Address;
use crate::error::CalculationError;
use crate::pool::PoolState;
use crate::venue::{events_view, Event, EventView, OpenOrders};
use vstd::prelude::*;

verus! {

/// Whether an event changes what the venue holds for the open-orders
/// account at `own`: a fill of one of its resting orders.
pub open spec fn is_own_maker_fill(e: EventView, own: Seq<u8>) -> bool {
    e.fill && e.maker && e.owner == own
}

/// The quote and base totals at the venue after one event. A filled bid
/// paid quote tokens and received base tokens, a filled ask the reverse.
/// Other events, and events of other accounts, change nothing.
pub open spec fn settle_event(totals: (u64, u64), e: EventView, own: Seq<u8>) -> Result<
    (u64, u64),
    CalculationError,
> {
    let (pc, coin) = totals;
    if !is_own_maker_fill(e, own) {
        Ok(totals)
    } else if e.bid {
        if pc < e.native_qty_paid {
            Err(CalculationError::SubUnderflow)
        } else if coin + e.native_qty_released > u64::MAX {
            Err(CalculationError::AddOverflow)
        } else {
            Ok(((pc - e.native_qty_paid) as u64, (coin + e.native_qty_released) as u64))
        }
    } else {
        if coin < e.native_qty_paid {
            Err(CalculationError::SubUnderflow)
        } else if pc + e.native_qty_released > u64::MAX {
            Err(CalculationError::AddOverflow)
        } else {
            Ok(((pc + e.native_qty_released) as u64, (coin - e.native_qty_paid) as u64))
        }
    }
}

/// The quote and base totals at the venue after the events in their
/// order, or the error of the first event that cannot be settled.
pub open spec fn settle_events(totals: (u64, u64), events: Seq<EventView>, own: Seq<u8>) -> Result<
    (u64, u64),
    CalculationError,
>
    decreases events.len(),
{
    if events.len() == 0 {
        Ok(totals)
    } else {
        match settle_event(totals, events.first(), own) {
            Err(e) => Err(e),
            Ok(next) => settle_events(next, events.drop_first(), own),
        }
    }
}

/// What the venue holds for a pool, quote first: the totals of its
/// open-orders record, brought up to date with the pending events.
pub open spec fn exact_vault_in_venue(
    native_pc_total: u64,
    native_coin_total: u64,
    events: Seq<EventView>,
    own: Seq<u8>,
) -> Result<(u64, u64), CalculationError> {
    settle_events((native_pc_total, native_coin_total), events, own)
}

/// One side's reserve: the vault and what is at the venue, less the
/// operator's profit.
pub open spec fn side_without_take_pnl(vault: u64, at_venue: u64, need_take_pnl: u64) -> Result<
    u64,
    CalculationError,
> {
    if vault + at_venue > u64::MAX {
        Err(CalculationError::AddOverflow)
    } else if vault + at_venue < need_take_pnl {
        Err(CalculationError::SubUnderflow)
    } else {
        Ok((vault + at_venue - need_take_pnl) as u64)
    }
}

/// Both reserves of a pool that may trade on the venue, quote first.
pub open spec fn total_without_take_pnl(
    pc_amount: u64,
    coin_amount: u64,
    at_venue: (u64, u64),
    need_take_pnl_pc: u64,
    need_take_pnl_coin: u64,
) -> Result<(u64, u64), CalculationError> {
    match side_without_take_pnl(pc_amount, at_venue.0, need_take_pnl_pc) {
        Err(e) => Err(e),
        Ok(pc) => match side_without_take_pnl(coin_amount, at_venue.1, need_take_pnl_coin) {
            Err(e) => Err(e),
            Ok(coin) => Ok((pc, coin)),
        },
    }
}

/// Both reserves of a pool that may trade on the venue, from its records.
pub open spec fn total_with_orderbook(
    pc_amount: u64,
    coin_amount: u64,
    native_pc_total: u64,
    native_coin_total: u64,
    events: Seq<EventView>,
    own: Seq<u8>,
    need_take_pnl_pc: u64,
    need_take_pnl_coin: u64,
) -> Result<(u64, u64), CalculationError> {
    match exact_vault_in_venue(native_pc_total, native_coin_total, events, own) {
        Err(e) => Err(e),
        Ok(at_venue) => total_without_take_pnl(
            pc_amount,
            coin_amount,
            at_venue,
            need_take_pnl_pc,
            need_take_pnl_coin,
        ),
    }
}

/// The reserves of a pool that may not trade on the venue: what its two
/// vaults hold, quote first.
pub fn calc_total_without_take_pnl_no_orderbook(pc_amount: u64, coin_amount: u64) -> (r: (
    u64,
    u64,
))
    ensures
        r == (pc_amount, coin_amount),
{
    (pc_amount, coin_amount)
}

/// What the venue holds for the pool whose open-orders account is at
/// `amm_open_orders`, quote first. The totals of the open-orders record
/// lag behind the fills that wait in the event queue; each pending fill of
/// one of the pool's resting orders is settled here.
pub fn calc_exact_vault_in_venue(
    open_orders: &OpenOrders,
    events: &Vec<Event>,
    amm_open_orders: &Address,
) -> (r: Result<(u64, u64), CalculationError>)
    ensures
        r == exact_vault_in_venue(
            open_orders.native_pc_total,
            open_orders.native_coin_total,
            events_view(events@),
            amm_open_orders@,
        ),
{
    let mut native_pc_total: u64 = open_orders.native_pc_total;
    let mut native_coin_total: u64 = open_orders.native_coin_total;
    let ghost all = events_view(events@);
    let ghost own = amm_open_orders@;
    let ghost start = (native_pc_total, native_coin_total);
    let n: usize = events.len();
    let mut i: usize = 0;
    assert(all.skip(0) =~= all);
    while i < n
        invariant
            i <= n,
            n == events@.len(),
            all == events_view(events@),
            own == amm_open_orders@,
            start == (open_orders.native_pc_total, open_orders.native_coin_total),
            settle_events(start, all, own) == settle_events(
                (native_pc_total, native_coin_total),
                all.skip(i as int),
                own,
            ),
        decreases n - i,
    {
        let event: &Event = &events[i];
        proof {
            assert(all.skip(i as int).first() == event@);
            assert(all.skip(i as int).drop_first() =~= all.skip(i + 1));
        }
        if event.fill && event.maker && event.owner.same(amm_open_orders) {
            if event.bid {
                if native_pc_total < event.native_qty_paid {
                    return Err(CalculationError::SubUnderflow);
                }
                if event.native_qty_released > u64::MAX - native_coin_total {
                    return Err(CalculationError::AddOverflow);
                }
                native_pc_total = native_pc_total - event.native_qty_paid;
                native_coin_total = native_coin_total + event.native_qty_released;
            } else {
                if native_coin_total < event.native_qty_paid {
                    return Err(CalculationError::SubUnderflow);
                }
                if event.native_qty_released > u64::MAX - native_pc_total {
                    return Err(CalculationError::AddOverflow);
                }
                native_coin_total = native_coin_total - event.native_qty_paid;
                native_pc_total = native_pc_total + event.native_qty_released;
            }
        }
        i += 1;
    }
    Ok((native_pc_total, native_coin_total))
}

/// One side's reserve: the vault and what is at the venue, less the
/// operator's profit. Fails where the sum does not fit or the profit is
/// more than the sum.
pub fn calc_side_without_take_pnl(vault: u64, at_venue: u64, need_take_pnl: u64) -> (r: Result<
    u64,
    CalculationError,
>)
    ensures
        r == side_without_take_pnl(vault, at_venue, need_take_pnl),
{
    match vault.checked_add(at_venue) {
        None => Err(CalculationError::AddOverflow),
        Some(sum) => match sum.checked_sub(need_take_pnl) {
            None => Err(CalculationError::SubUnderflow),
            Some(rest) => Ok(rest),
        },
    }
}

/// Both reserves of a pool that may trade on the venue, quote first: for
/// each token the vault's amount and what the venue holds for the pool,
/// less the profit that the pool owes its operator.
pub fn calc_total_without_take_pnl(
    pc_amount: u64,
    coin_amount: u64,
    open_orders: &OpenOrders,
    amm: &PoolState,
    events: &Vec<Event>,
) -> (r: Result<(u64, u64), CalculationError>)
    ensures
        r == total_with_orderbook(
            pc_amount,
            coin_amount,
            open_orders.native_pc_total,
            open_orders.native_coin_total,
            events_view(events@),
            amm.open_orders@,
            amm.need_take_pnl_pc,
            amm.need_take_pnl_coin,
        ),
{
    match calc_exact_vault_in_venue(open_orders, events, &amm.open_orders) {
        Err(e) => Err(e),
        Ok((pc_at_venue, coin_at_venue)) => {
            match calc_side_without_take_pnl(pc_amount, pc_at_venue, amm.need_take_pnl_pc) {
                Err(e) => Err(e),
                Ok(pc) => match calc_side_without_take_pnl(
                    coin_amount,
                    coin_at_venue,
                    amm.need_take_pnl_coin,
                ) {
                    Err(e) => Err(e),
                    Ok(coin) => Ok((pc, coin)),
                },
            }
        },
    }
}

} // verus!
