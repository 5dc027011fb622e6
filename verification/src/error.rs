//! What can go wrong in a query.

use vstd::prelude::*;

verus! {

/// The seven accounts that one query reads, in the order in which their
/// addresses are requested.
#[derive(Clone, Copy, Debug, PartialEq, Eq)]
pub enum AccountRole {
    /// The pool's state record.
    Pool,
    /// The pool's target-orders record.
    TargetOrders,
    /// The quote-token ("pc") vault.
    PcVault,
    /// The base-token ("coin") vault.
    CoinVault,
    /// The pool's open-orders record on the order book venue.
    OpenOrders,
    /// The venue's market record.
    Market,
    /// The market's event queue.
    EventQueue,
}

impl AccountRole {
    /// The place of this account's address in the batched request.
    pub open spec fn index(self) -> int {
        match self {
            AccountRole::Pool => 0,
            AccountRole::TargetOrders => 1,
            AccountRole::PcVault => 2,
            AccountRole::CoinVault => 3,
            AccountRole::OpenOrders => 4,
            AccountRole::Market => 5,
            AccountRole::EventQueue => 6,
        }
    }

    /// Whether a query needs this account: the pool's state, its target
    /// orders and its two vaults always, the three accounts of the venue
    /// for a pool whose mode permits the order book.
    pub open spec fn needed(self, orderbook: bool) -> bool {
        match self {
            AccountRole::OpenOrders | AccountRole::Market | AccountRole::EventQueue => orderbook,
            _ => true,
        }
    }
}

/// Why bytes are not a record of the expected layout.
#[derive(Clone, Copy, Debug, PartialEq, Eq)]
pub enum DecodeError {
    /// The buffer is shorter or longer than the layout.
    Length,
    /// The buffer has the length of the layout, but a tag or a field in it
    /// has a value that the layout does not allow.
    Layout,
}

/// Why reserves could not be calculated from decoded records.
#[derive(Clone, Copy, Debug, PartialEq, Eq)]
pub enum CalculationError {
    /// A sum does not fit in 64 bits.
    AddOverflow,
    /// More would be taken away than is there.
    SubUnderflow,
    /// The order-book records do not belong to this pool and to each other.
    InvalidOrderBook,
}

/// Why a query returned no reserves.
#[derive(Clone, Copy, Debug, PartialEq, Eq)]
pub enum QueryError {
    /// An address that the query needs holds no account.
    MissingAccount(AccountRole),
    /// An account's data is not a record of the expected layout.
    Decode(AccountRole, DecodeError),
    /// The records were read, and the calculation on them failed.
    Calculation(CalculationError),
}

} // verus!
