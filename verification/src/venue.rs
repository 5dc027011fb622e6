//! Records of the order book venue: the market, the pool's open orders and
//! the queue of events that the venue has not yet settled.
//!
//! Every account of the venue is framed: its data begins with the five
//! bytes `serum` and ends with the seven bytes `padding`. Between them
//! stand little-endian integers and 32-byte addresses, the first integer
//! being the account's flags.

use crate::address::Address;
use crate::bytes::{le_u64, read_u64};
use crate::error::DecodeError;
use vstd::prelude::*;

verus! {

/// The length of a market record.
pub const MARKET_LEN: usize = 388;

/// The length of an open-orders record.
pub const OPEN_ORDERS_LEN: usize = 3228;

/// The length of the framing and the header of an event queue, which is
/// the length of a queue without room for any event.
pub const QUEUE_MIN_LEN: usize = 44;

/// Where the first event slot of a queue begins.
pub const QUEUE_SLOTS_START: usize = 37;

/// The length of one event slot.
pub const EVENT_LEN: usize = 88;

/// The flags of a market in use: initialized (1) and market (2).
pub const MARKET_FLAGS: u64 = 3;

/// The flags of an open-orders account in use: initialized (1) and open
/// orders (4).
pub const OPEN_ORDERS_FLAGS: u64 = 5;

/// The flags of an event queue in use: initialized (1) and event queue
/// (16).
pub const EVENT_QUEUE_FLAGS: u64 = 17;

/// The highest fee tier that a fill can name.
pub const MAX_FEE_TIER: u8 = 7;

/// Whether `s` begins with `serum` and ends with `padding`.
pub open spec fn framed(s: Seq<u8>) -> bool {
    let end = s.len() as int;
    &&& s.len() >= 12
    &&& s[0] == 115 && s[1] == 101 && s[2] == 114 && s[3] == 117 && s[4] == 109
    &&& s[end - 7] == 112 && s[end - 6] == 97 && s[end - 5] == 100 && s[end - 4] == 100
    &&& s[end - 3] == 105 && s[end - 2] == 110 && s[end - 1] == 103
}

/// What a query reads in a market record.
#[derive(Clone, Copy, Debug, PartialEq, Eq)]
pub struct Market {
    /// The market's own address.
    pub own_address: Address,
    /// The address of the market's event queue.
    pub event_q: Address,
}

/// A market record as a mathematical value.
pub struct MarketView {
    pub own_address: Seq<u8>,
    pub event_q: Seq<u8>,
}

impl View for Market {
    type V = MarketView;

    open spec fn view(&self) -> MarketView {
        MarketView { own_address: self.own_address@, event_q: self.event_q@ }
    }
}

/// What a query reads in an open-orders record.
#[derive(Clone, Copy, Debug, PartialEq, Eq)]
pub struct OpenOrders {
    /// The market that the orders rest in.
    pub market: Address,
    /// The account that may place and cancel the orders.
    pub owner: Address,
    /// Base tokens that the venue holds for the owner.
    pub native_coin_total: u64,
    /// Quote tokens that the venue holds for the owner.
    pub native_pc_total: u64,
}

/// An open-orders record as a mathematical value.
pub struct OpenOrdersView {
    pub market: Seq<u8>,
    pub owner: Seq<u8>,
    pub native_coin_total: u64,
    pub native_pc_total: u64,
}

impl View for OpenOrders {
    type V = OpenOrdersView;

    open spec fn view(&self) -> OpenOrdersView {
        OpenOrdersView {
            market: self.market@,
            owner: self.owner@,
            native_coin_total: self.native_coin_total,
            native_pc_total: self.native_pc_total,
        }
    }
}

/// What a query reads in one event of the queue.
#[derive(Clone, Copy, Debug, PartialEq, Eq)]
pub struct Event {
    /// An order was matched (otherwise it left the book).
    pub fill: bool,
    /// The order was a bid: it buys base tokens with quote tokens.
    pub bid: bool,
    /// The order was resting in the book when it was matched.
    pub maker: bool,
    /// The open-orders account that the order belongs to.
    pub owner: Address,
    /// For a fill, what the owner received.
    pub native_qty_released: u64,
    /// For a fill, what the owner paid.
    pub native_qty_paid: u64,
}

/// An event as a mathematical value.
pub struct EventView {
    pub fill: bool,
    pub bid: bool,
    pub maker: bool,
    pub owner: Seq<u8>,
    pub native_qty_released: u64,
    pub native_qty_paid: u64,
}

impl View for Event {
    type V = EventView;

    open spec fn view(&self) -> EventView {
        EventView {
            fill: self.fill,
            bid: self.bid,
            maker: self.maker,
            owner: self.owner@,
            native_qty_released: self.native_qty_released,
            native_qty_paid: self.native_qty_paid,
        }
    }
}

/// The events behind a vector of events.
pub open spec fn events_view(events: Seq<Event>) -> Seq<EventView> {
    Seq::new(events.len(), |i: int| events[i]@)
}

/// The market that `s` encodes: its flags at offset 5, its own address at
/// 13 and the address of its event queue at 253.
pub open spec fn parse_market(s: Seq<u8>) -> Result<MarketView, DecodeError> {
    if s.len() != MARKET_LEN {
        Err(DecodeError::Length)
    } else if !framed(s) || le_u64(s, 5) != MARKET_FLAGS {
        Err(DecodeError::Layout)
    } else {
        Ok(MarketView { own_address: s.subrange(13, 45), event_q: s.subrange(253, 285) })
    }
}

/// The open orders that `s` encodes: the flags at offset 5, the market at
/// 13, the owner at 45, the base total at 85 and the quote total at 101.
pub open spec fn parse_open_orders(s: Seq<u8>) -> Result<OpenOrdersView, DecodeError> {
    if s.len() != OPEN_ORDERS_LEN {
        Err(DecodeError::Length)
    } else if !framed(s) || le_u64(s, 5) != OPEN_ORDERS_FLAGS {
        Err(DecodeError::Layout)
    } else {
        Ok(
            OpenOrdersView {
                market: s.subrange(13, 45),
                owner: s.subrange(45, 77),
                native_coin_total: le_u64(s, 85) as u64,
                native_pc_total: le_u64(s, 101) as u64,
            },
        )
    }
}

/// Whether the flag of value `bit` (a power of two) is set in `flags`.
pub open spec fn flag_set(flags: int, bit: int) -> bool {
    (flags / bit) % 2 == 1
}

/// Whether an event may carry these flags. The flags are fill (1), out
/// (2), bid (4), maker (8) and release funds (16). A fill is neither an
/// out nor a release of funds, and names a fee tier; only a fill has a
/// maker.
pub open spec fn event_flags_ok(flags: int, fee_tier: int) -> bool {
    &&& flags < 32
    &&& flag_set(flags, 1) ==> !flag_set(flags, 2) && !flag_set(flags, 16) && fee_tier
        <= MAX_FEE_TIER
    &&& !flag_set(flags, 1) ==> !flag_set(flags, 8)
}

/// The event in the slot that begins at `at`: the flags in its first
/// byte, the fee tier in its third, what was released at 8, what was paid
/// at 16 and the owner at 48.
pub open spec fn parse_event(s: Seq<u8>, at: int) -> Option<EventView> {
    let flags = s[at] as int;
    if !event_flags_ok(flags, s[at + 2] as int) {
        None
    } else {
        Some(
            EventView {
                fill: flag_set(flags, 1),
                bid: flag_set(flags, 4),
                maker: flag_set(flags, 8),
                owner: s.subrange(at + 48, at + 80),
                native_qty_released: le_u64(s, at + 8) as u64,
                native_qty_paid: le_u64(s, at + 16) as u64,
            },
        )
    }
}

/// The number of event slots in a queue of the length of `s`. Bytes after
/// the last whole slot belong to no slot.
pub open spec fn queue_capacity(s: Seq<u8>) -> int {
    (s.len() - QUEUE_MIN_LEN) / (EVENT_LEN as int)
}

/// The slot of the oldest pending event.
pub open spec fn queue_head(s: Seq<u8>) -> int {
    le_u64(s, 13)
}

/// The number of pending events.
pub open spec fn queue_count(s: Seq<u8>) -> int {
    le_u64(s, 21)
}

/// Where the `i`-th pending event begins: the slots form a ring.
pub open spec fn pending_offset(s: Seq<u8>, i: int) -> int {
    QUEUE_SLOTS_START + EVENT_LEN * ((queue_head(s) + i) % queue_capacity(s))
}

/// Whether the framing and the header of a queue are in order: the flags
/// at offset 5, and a head and a count that name slots of the ring.
pub open spec fn queue_header_ok(s: Seq<u8>) -> bool {
    &&& framed(s)
    &&& le_u64(s, 5) == EVENT_QUEUE_FLAGS
    &&& queue_count(s) <= queue_capacity(s)
    &&& queue_count(s) == 0 || queue_head(s) < queue_capacity(s)
}

/// The pending events that `s` encodes, oldest first.
pub open spec fn parse_event_queue(s: Seq<u8>) -> Result<Seq<EventView>, DecodeError> {
    if s.len() < QUEUE_MIN_LEN || (s.len() - 12) % 8 != 0 {
        Err(DecodeError::Length)
    } else if !queue_header_ok(s) || exists|i: int|
        0 <= i < queue_count(s) && (#[trigger] parse_event(s, pending_offset(s, i))) is None {
        Err(DecodeError::Layout)
    } else {
        Ok(
            Seq::new(
                queue_count(s) as nat,
                |i: int| parse_event(s, pending_offset(s, i)).unwrap(),
            ),
        )
    }
}

/// Whether `data` begins with `serum` and ends with `padding`.
pub fn is_framed(data: &[u8]) -> (r: bool)
    ensures
        r == framed(data@),
{
    let n: usize = data.len();
    n >= 12 && data[0] == 115 && data[1] == 101 && data[2] == 114 && data[3] == 117 && data[4]
        == 109 && data[n - 7] == 112 && data[n - 6] == 97 && data[n - 5] == 100 && data[n - 4]
        == 100 && data[n - 3] == 105 && data[n - 2] == 110 && data[n - 1] == 103
}

/// Decodes the data of a market account.
pub fn decode_market(data: &[u8]) -> (r: Result<Market, DecodeError>)
    ensures
        match r {
            Ok(m) => parse_market(data@) == Ok::<MarketView, DecodeError>(m@),
            Err(e) => parse_market(data@) == Err::<MarketView, DecodeError>(e),
        },
{
    if data.len() != MARKET_LEN {
        return Err(DecodeError::Length);
    }
    if !is_framed(data) || read_u64(data, 5) != MARKET_FLAGS {
        return Err(DecodeError::Layout);
    }
    Ok(Market { own_address: Address::read(data, 13), event_q: Address::read(data, 253) })
}

/// Decodes the data of an open-orders account.
pub fn decode_open_orders(data: &[u8]) -> (r: Result<OpenOrders, DecodeError>)
    ensures
        match r {
            Ok(o) => parse_open_orders(data@) == Ok::<OpenOrdersView, DecodeError>(o@),
            Err(e) => parse_open_orders(data@) == Err::<OpenOrdersView, DecodeError>(e),
        },
{
    if data.len() != OPEN_ORDERS_LEN {
        return Err(DecodeError::Length);
    }
    if !is_framed(data) || read_u64(data, 5) != OPEN_ORDERS_FLAGS {
        return Err(DecodeError::Layout);
    }
    Ok(
        OpenOrders {
            market: Address::read(data, 13),
            owner: Address::read(data, 45),
            native_coin_total: read_u64(data, 85),
            native_pc_total: read_u64(data, 101),
        },
    )
}

/// Decodes the event in the slot that begins at `at`.
pub(crate) fn decode_event(data: &[u8], at: usize) -> (r: Option<Event>)
    requires
        at + EVENT_LEN <= data@.len(),
    ensures
        match r {
            Some(e) => parse_event(data@, at as int) == Some(e@),
            None => parse_event(data@, at as int) is None,
        },
{
    let flags: u8 = data[at];
    let fee_tier: u8 = data[at + 2];
    let fill: bool = flags % 2 == 1;
    let out: bool = (flags / 2) % 2 == 1;
    let bid: bool = (flags / 4) % 2 == 1;
    let maker: bool = (flags / 8) % 2 == 1;
    let release: bool = (flags / 16) % 2 == 1;
    if flags >= 32 {
        return None;
    }
    if fill && (out || release || fee_tier > MAX_FEE_TIER) {
        return None;
    }
    if !fill && maker {
        return None;
    }
    Some(
        Event {
            fill,
            bid,
            maker,
            owner: Address::read(data, at + 48),
            native_qty_released: read_u64(data, at + 8),
            native_qty_paid: read_u64(data, at + 16),
        },
    )
}

/// Decodes the data of an event-queue account into its pending events,
/// oldest first. Each pending event is decoded, whoever owns it.
pub fn decode_event_queue(data: &[u8]) -> (r: Result<Vec<Event>, DecodeError>)
    ensures
        match r {
            Ok(events) => parse_event_queue(data@) == Ok::<Seq<EventView>, DecodeError>(
                events_view(events@),
            ),
            Err(e) => parse_event_queue(data@) == Err::<Seq<EventView>, DecodeError>(e),
        },
{
    let len: usize = data.len();
    if len < QUEUE_MIN_LEN || (len - 12) % 8 != 0 {
        return Err(DecodeError::Length);
    }
    if !is_framed(data) || read_u64(data, 5) != EVENT_QUEUE_FLAGS {
        return Err(DecodeError::Layout);
    }
    let capacity: usize = (len - QUEUE_MIN_LEN) / EVENT_LEN;
    let head: u64 = read_u64(data, 13);
    let count: u64 = read_u64(data, 21);
    if count > capacity as u64 || (count != 0 && head >= capacity as u64) {
        return Err(DecodeError::Layout);
    }
    let mut events: Vec<Event> = Vec::new();
    if count == 0 {
        assert(events_view(events@) =~= Seq::new(
            queue_count(data@) as nat,
            |i: int| parse_event(data@, pending_offset(data@, i)).unwrap(),
        ));
        return Ok(events);
    }
    let first: usize = head as usize;
    let pending: usize = count as usize;
    let mut i: usize = 0;
    while i < pending
        invariant
            i <= pending <= capacity,
            first < capacity,
            len == data@.len(),
            len >= QUEUE_MIN_LEN,
            (len - 12) % 8 == 0,
            queue_header_ok(data@),
            capacity == queue_capacity(data@),
            first == queue_head(data@),
            pending == queue_count(data@),
            events@.len() == i,
            forall|j: int|
                0 <= j < i ==> (#[trigger] parse_event(data@, pending_offset(data@, j))) == Some(
                    events@[j]@,
                ),
        decreases pending - i,
    {
        let slot: usize = (first + i) % capacity;
        let at: usize = QUEUE_SLOTS_START + EVENT_LEN * slot;
        assert(at == pending_offset(data@, i as int));
        match decode_event(data, at) {
            None => {
                assert(0 <= i < queue_count(data@) && parse_event(
                    data@,
                    pending_offset(data@, i as int),
                ) is None);
                return Err(DecodeError::Layout);
            },
            Some(event) => {
                events.push(event);
            },
        }
        i += 1;
    }
    assert(events_view(events@) =~= Seq::new(
        queue_count(data@) as nat,
        |i: int| parse_event(data@, pending_offset(data@, i)).unwrap(),
    ));
    Ok(events)
}

} // verus!
