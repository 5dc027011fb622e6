//! The pool's own records: its state and its target orders.

use crate::address::Address;
use crate::bytes::le_u64;
use crate::error::DecodeError;
use crate::status::AmmStatus;
use vstd::prelude::*;

verus! {

/// The length of a pool-state record: 736 bytes of fields and two reserved
/// words.
pub const POOL_STATE_LEN: usize = 752;

/// The length of a target-orders record.
pub const TARGET_ORDERS_LEN: usize = 2208;

/// What a query reads in a pool-state record.
#[derive(Clone, Copy, Debug, PartialEq, Eq)]
pub struct PoolState {
    /// The operating mode.
    pub status: AmmStatus,
    pub swap_fee_numerator: u64,
    pub swap_fee_denominator: u64,
    /// Base-token profit that is owed to the pool's operator.
    pub need_take_pnl_coin: u64,
    /// Quote-token profit that is owed to the pool's operator.
    pub need_take_pnl_pc: u64,
    /// The pool's open-orders account at the order book venue.
    pub open_orders: Address,
    /// The program that owns the venue's accounts.
    pub market_program: Address,
    /// The supply of liquidity tokens.
    pub lp_amount: u64,
}

/// A pool-state record as a mathematical value.
pub struct PoolStateView {
    pub status: AmmStatus,
    pub swap_fee_numerator: u64,
    pub swap_fee_denominator: u64,
    pub need_take_pnl_coin: u64,
    pub need_take_pnl_pc: u64,
    pub open_orders: Seq<u8>,
    pub market_program: Seq<u8>,
    pub lp_amount: u64,
}

impl View for PoolState {
    type V = PoolStateView;

    open spec fn view(&self) -> PoolStateView {
        PoolStateView {
            status: self.status,
            swap_fee_numerator: self.swap_fee_numerator,
            swap_fee_denominator: self.swap_fee_denominator,
            need_take_pnl_coin: self.need_take_pnl_coin,
            need_take_pnl_pc: self.need_take_pnl_pc,
            open_orders: self.open_orders@,
            market_program: self.market_program@,
            lp_amount: self.lp_amount,
        }
    }
}

/// The pool state that `s` encodes. The fields are little-endian integers
/// and 32-byte addresses at fixed offsets: the mode at 0, the swap fee at
/// 176 and 184, the operator's profit at 192 (base) and 200 (quote), the
/// open-orders address at 496, the venue's program at 560 and the
/// liquidity supply at 720.
pub open spec fn parse_pool_state(s: Seq<u8>) -> Result<PoolStateView, DecodeError> {
    if s.len() != POOL_STATE_LEN {
        Err(DecodeError::Length)
    } else {
        match AmmStatus::of(le_u64(s, 0)) {
            None => Err(DecodeError::Layout),
            Some(status) => Ok(
                PoolStateView {
                    status,
                    swap_fee_numerator: le_u64(s, 176) as u64,
                    swap_fee_denominator: le_u64(s, 184) as u64,
                    need_take_pnl_coin: le_u64(s, 192) as u64,
                    need_take_pnl_pc: le_u64(s, 200) as u64,
                    open_orders: s.subrange(496, 528),
                    market_program: s.subrange(560, 592),
                    lp_amount: le_u64(s, 720) as u64,
                },
            ),
        }
    }
}

/// Whether `s` has the length of a target-orders record.
pub open spec fn parse_target_orders(s: Seq<u8>) -> Result<(), DecodeError> {
    if s.len() != TARGET_ORDERS_LEN {
        Err(DecodeError::Length)
    } else {
        Ok(())
    }
}

/// The fields of an `AmmInfo` that a query reads, as they were stored.
struct AmmInfoFields {
    status: u64,
    swap_fee_numerator: u64,
    swap_fee_denominator: u64,
    need_take_pnl_coin: u64,
    need_take_pnl_pc: u64,
    open_orders: Address,
    market_program: Address,
    lp_amount: u64,
}

/// `raydium_amm::accounts::AmmInfo::from_bytes`, of which eight fields are
/// kept.
///
/// Trusted: the fields are read one after the other, integers
/// least significant byte first and addresses as 32 bytes, so the reading
/// succeeds exactly when the buffer holds the 736 bytes of all fields, and
/// each field is what stands at its offset. Bytes after the fields are not
/// looked at.
#[verifier::external_body]
fn amm_info_fields(data: &[u8]) -> (r: Option<AmmInfoFields>)
    ensures
        r is Some <==> data@.len() >= 736,
        r matches Some(f) ==> {
            &&& f.status == le_u64(data@, 0)
            &&& f.swap_fee_numerator == le_u64(data@, 176)
            &&& f.swap_fee_denominator == le_u64(data@, 184)
            &&& f.need_take_pnl_coin == le_u64(data@, 192)
            &&& f.need_take_pnl_pc == le_u64(data@, 200)
            &&& f.open_orders@ == data@.subrange(496, 528)
            &&& f.market_program@ == data@.subrange(560, 592)
            &&& f.lp_amount == le_u64(data@, 720)
        },
{
    match raydium_amm::accounts::AmmInfo::from_bytes(data) {
        Ok(info) => Some(AmmInfoFields {
            status: info.status,
            swap_fee_numerator: info.fees.swap_fee_numerator,
            swap_fee_denominator: info.fees.swap_fee_denominator,
            need_take_pnl_coin: info.out_put.need_take_pnl_coin,
            need_take_pnl_pc: info.out_put.need_take_pnl_pc,
            open_orders: Address { bytes: info.open_orders.to_bytes() },
            market_program: Address { bytes: info.serum_dex.to_bytes() },
            lp_amount: info.lp_amount,
        }),
        Err(_) => None,
    }
}

/// Decodes the data of a pool's state account. A buffer of another length
/// than the record's is refused, and so is a mode outside the eight modes.
pub fn decode_pool_state(data: &[u8]) -> (r: Result<PoolState, DecodeError>)
    ensures
        match r {
            Ok(pool) => parse_pool_state(data@) == Ok::<PoolStateView, DecodeError>(pool@),
            Err(e) => parse_pool_state(data@) == Err::<PoolStateView, DecodeError>(e),
        },
{
    if data.len() != POOL_STATE_LEN {
        return Err(DecodeError::Length);
    }
    match amm_info_fields(data) {
        None => Err(DecodeError::Layout),
        Some(f) => match AmmStatus::from_u64(f.status) {
            None => Err(DecodeError::Layout),
            Some(status) => Ok(
                PoolState {
                    status,
                    swap_fee_numerator: f.swap_fee_numerator,
                    swap_fee_denominator: f.swap_fee_denominator,
                    need_take_pnl_coin: f.need_take_pnl_coin,
                    need_take_pnl_pc: f.need_take_pnl_pc,
                    open_orders: f.open_orders,
                    market_program: f.market_program,
                    lp_amount: f.lp_amount,
                },
            ),
        },
    }
}

/// Checks the data of a pool's target-orders account: it must have the
/// record's length. None of its fields enters the reserves.
pub fn check_target_orders(data: &[u8]) -> (r: Result<(), DecodeError>)
    ensures
        r == parse_target_orders(data@),
{
    if data.len() != TARGET_ORDERS_LEN {
        Err(DecodeError::Length)
    } else {
        Ok(())
    }
}

} // verus!
