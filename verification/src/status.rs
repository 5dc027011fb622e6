//! Operating modes of a pool.

use vstd::prelude::*;

verus! {

/// The operating mode that a pool's state record carries in its first field.
#[derive(Clone, Copy, Debug, PartialEq, Eq)]
pub enum AmmStatus {
    Uninitialized,
    Initialized,
    Disabled,
    WithdrawOnly,
    /// Liquidity may be added or removed; no swaps, no orders.
    LiquidityOnly,
    /// Liquidity may be added or removed and orders planned; no swaps.
    OrderBookOnly,
    /// Liquidity may be added or removed and swaps made; no orders.
    SwapOnly,
    /// The mode of a new pool until its opening time.
    WaitingTrade,
}

impl AmmStatus {
    /// The mode that `status` stands for, if it stands for one.
    pub open spec fn of(status: int) -> Option<AmmStatus> {
        if status == 0 {
            Some(AmmStatus::Uninitialized)
        } else if status == 1 {
            Some(AmmStatus::Initialized)
        } else if status == 2 {
            Some(AmmStatus::Disabled)
        } else if status == 3 {
            Some(AmmStatus::WithdrawOnly)
        } else if status == 4 {
            Some(AmmStatus::LiquidityOnly)
        } else if status == 5 {
            Some(AmmStatus::OrderBookOnly)
        } else if status == 6 {
            Some(AmmStatus::SwapOnly)
        } else if status == 7 {
            Some(AmmStatus::WaitingTrade)
        } else {
            None
        }
    }

    /// Whether a pool in this mode may hold part of its funds in the order
    /// book venue.
    pub open spec fn permits_orderbook(self) -> bool {
        self == AmmStatus::Initialized || self == AmmStatus::OrderBookOnly
    }

    /// Reads a mode from the number in a pool's state record. Numbers
    /// outside the eight modes stand for none.
    pub fn from_u64(status: u64) -> (r: Option<AmmStatus>)
        ensures
            r == AmmStatus::of(status as int),
    {
        match status {
            0 => Some(AmmStatus::Uninitialized),
            1 => Some(AmmStatus::Initialized),
            2 => Some(AmmStatus::Disabled),
            3 => Some(AmmStatus::WithdrawOnly),
            4 => Some(AmmStatus::LiquidityOnly),
            5 => Some(AmmStatus::OrderBookOnly),
            6 => Some(AmmStatus::SwapOnly),
            7 => Some(AmmStatus::WaitingTrade),
            _ => None,
        }
    }

    /// Whether a pool in this mode may hold part of its funds in the order
    /// book venue.
    pub fn orderbook_permission(&self) -> (r: bool)
        ensures
            r == self.permits_orderbook(),
    {
        match self {
            AmmStatus::Uninitialized => false,
            AmmStatus::Initialized => true,
            AmmStatus::Disabled => false,
            AmmStatus::WithdrawOnly => false,
            AmmStatus::LiquidityOnly => false,
            AmmStatus::OrderBookOnly => true,
            AmmStatus::SwapOnly => false,
            AmmStatus::WaitingTrade => false,
        }
    }
}

} // verus!
