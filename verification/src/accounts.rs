//! The request of a query and the ledger's answer to it.
//!
//! A query reads seven accounts in one batched request. The answer names
//! each account by its role, so that no account is taken for another.

use crate::address::Address;
use crate::error::AccountRole;
use vstd::prelude::*;

verus! {

/// The addresses of a pool's accounts that a query reads.
#[derive(Clone, Copy, Debug, PartialEq, Eq)]
pub struct AmmKeys {
    /// The pool's target-orders account.
    pub amm_target: Address,
    /// The quote-token vault.
    pub amm_pc_vault: Address,
    /// The base-token vault.
    pub amm_coin_vault: Address,
    /// The pool's open-orders account at the order book venue.
    pub amm_open_order: Address,
    /// The market that the pool trades in.
    pub market: Address,
}

/// The addresses of a market's accounts that a query reads.
#[derive(Clone, Copy, Debug, PartialEq, Eq)]
pub struct MarketPubkeys {
    /// The market's event queue.
    pub event_q: Address,
}

/// An account as the ledger returned it.
#[derive(Clone, Debug, PartialEq, Eq)]
pub struct RawAccount {
    /// The program that owns the account.
    pub owner: Address,
    /// The account's data.
    pub data: Vec<u8>,
}

/// An account as a mathematical value.
pub struct RawAccountView {
    pub owner: Seq<u8>,
    pub data: Seq<u8>,
}

impl View for RawAccount {
    type V = RawAccountView;

    open spec fn view(&self) -> RawAccountView {
        RawAccountView { owner: self.owner@, data: self.data@ }
    }
}

/// An account that may be absent, as a mathematical value.
pub open spec fn optional_account(a: Option<RawAccount>) -> Option<RawAccountView> {
    match a {
        Some(account) => Some(account@),
        None => None,
    }
}

/// What one batched read returned: for each of the seven addresses the
/// account found there, or `None` where the ledger holds none.
#[derive(Clone, Debug, PartialEq, Eq)]
pub struct FetchedAccounts {
    pub amm_pool: Option<RawAccount>,
    pub amm_target: Option<RawAccount>,
    pub amm_pc_vault: Option<RawAccount>,
    pub amm_coin_vault: Option<RawAccount>,
    pub amm_open_orders: Option<RawAccount>,
    pub market: Option<RawAccount>,
    pub market_event_q: Option<RawAccount>,
}

/// One batched read as a mathematical value.
pub struct FetchedAccountsView {
    pub amm_pool: Option<RawAccountView>,
    pub amm_target: Option<RawAccountView>,
    pub amm_pc_vault: Option<RawAccountView>,
    pub amm_coin_vault: Option<RawAccountView>,
    pub amm_open_orders: Option<RawAccountView>,
    pub market: Option<RawAccountView>,
    pub market_event_q: Option<RawAccountView>,
}

impl View for FetchedAccounts {
    type V = FetchedAccountsView;

    open spec fn view(&self) -> FetchedAccountsView {
        FetchedAccountsView {
            amm_pool: optional_account(self.amm_pool),
            amm_target: optional_account(self.amm_target),
            amm_pc_vault: optional_account(self.amm_pc_vault),
            amm_coin_vault: optional_account(self.amm_coin_vault),
            amm_open_orders: optional_account(self.amm_open_orders),
            market: optional_account(self.market),
            market_event_q: optional_account(self.market_event_q),
        }
    }
}

impl FetchedAccountsView {
    /// The account that was read for `role`.
    pub open spec fn account(self, role: AccountRole) -> Option<RawAccountView> {
        match role {
            AccountRole::Pool => self.amm_pool,
            AccountRole::TargetOrders => self.amm_target,
            AccountRole::PcVault => self.amm_pc_vault,
            AccountRole::CoinVault => self.amm_coin_vault,
            AccountRole::OpenOrders => self.amm_open_orders,
            AccountRole::Market => self.market,
            AccountRole::EventQueue => self.market_event_q,
        }
    }
}

/// The address that a query reads for `role`.
pub open spec fn address_for(
    role: AccountRole,
    amm_pool_key: Address,
    amm_keys: AmmKeys,
    market_keys: MarketPubkeys,
) -> Address {
    match role {
        AccountRole::Pool => amm_pool_key,
        AccountRole::TargetOrders => amm_keys.amm_target,
        AccountRole::PcVault => amm_keys.amm_pc_vault,
        AccountRole::CoinVault => amm_keys.amm_coin_vault,
        AccountRole::OpenOrders => amm_keys.amm_open_order,
        AccountRole::Market => amm_keys.market,
        AccountRole::EventQueue => market_keys.event_q,
    }
}

/// The seven addresses that a query reads, in the order of the request.
pub open spec fn requested(amm_pool_key: Address, amm_keys: AmmKeys, market_keys: MarketPubkeys)
    -> Seq<Address> {
    seq![
        amm_pool_key,
        amm_keys.amm_target,
        amm_keys.amm_pc_vault,
        amm_keys.amm_coin_vault,
        amm_keys.amm_open_order,
        amm_keys.market,
        market_keys.event_q,
    ]
}

/// The seven addresses to read in one batched request.
pub fn load_pubkeys(amm_pool_key: &Address, amm_keys: &AmmKeys, market_keys: &MarketPubkeys) -> (r:
    Vec<Address>)
    ensures
        r@ == requested(*amm_pool_key, *amm_keys, *market_keys),
{
    let mut keys: Vec<Address> = Vec::new();
    keys.push(*amm_pool_key);
    keys.push(amm_keys.amm_target);
    keys.push(amm_keys.amm_pc_vault);
    keys.push(amm_keys.amm_coin_vault);
    keys.push(amm_keys.amm_open_order);
    keys.push(amm_keys.market);
    keys.push(market_keys.event_q);
    assert(keys@ =~= requested(*amm_pool_key, *amm_keys, *market_keys));
    keys
}

/// Seven answers in the order of the request, each under the name of the
/// account that was requested in its place.
pub open spec fn in_request_order(rsps: Seq<Option<RawAccount>>) -> FetchedAccounts {
    FetchedAccounts {
        amm_pool: rsps[0],
        amm_target: rsps[1],
        amm_pc_vault: rsps[2],
        amm_coin_vault: rsps[3],
        amm_open_orders: rsps[4],
        market: rsps[5],
        market_event_q: rsps[6],
    }
}

impl FetchedAccounts {
    /// Names the answers to a batched request for the addresses of
    /// [`load_pubkeys`]: the answer in each place goes to the account whose
    /// address was requested in that place. An answer to another request
    /// has another length and is refused.
    pub fn from_ordered(rsps: Vec<Option<RawAccount>>) -> (r: Option<FetchedAccounts>)
        ensures
            r == if rsps@.len() == 7 {
                Some(in_request_order(rsps@))
            } else {
                None
            },
    {
        let mut rest = rsps;
        if rest.len() != 7 {
            return None;
        }
        let market_event_q = rest.pop().unwrap();
        let market = rest.pop().unwrap();
        let amm_open_orders = rest.pop().unwrap();
        let amm_coin_vault = rest.pop().unwrap();
        let amm_pc_vault = rest.pop().unwrap();
        let amm_target = rest.pop().unwrap();
        let amm_pool = rest.pop().unwrap();
        Some(
            FetchedAccounts {
                amm_pool,
                amm_target,
                amm_pc_vault,
                amm_coin_vault,
                amm_open_orders,
                market,
                market_event_q,
            },
        )
    }
}

} // verus!
