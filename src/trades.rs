//! Trade records and the per-trade net result.
use vstd::prelude::*;

verus! {

/// Largest number of trades a computation accepts; it keeps every sum of
/// net results far inside `i128`. No `Vec` of 24-byte records can be
/// longer within a 64-bit address space.
pub const MAX_TRADES: u64 = 0x2000_0000_0000_0000;

/// Strict bound on the magnitude of any sum of at most `MAX_TRADES` net
/// results; twice it still fits in `i128`.
pub open spec fn sum_limit() -> int {
    0x4000_0000_0000_0000_0000_0000_0000_0000
}

/// Bound on the magnitude of one net result.
pub open spec fn net_limit() -> int {
    0x1_0000_0000_0000_0000
}

/// Lifecycle state of a trade.
#[derive(Clone, Copy, Debug, PartialEq, Eq, Structural)]
pub enum Status {
    Open,
    Closed,
}

impl Status {
    /// Stored code: 1 for open, 2 for closed.
    pub fn code(&self) -> (r: i32)
        ensures
            r == match self {
                Status::Open => 1i32,
                Status::Closed => 2,
            },
    {
        match self {
            Status::Open => 1,
            Status::Closed => 2,
        }
    }

    /// The status of a stored code: 1 is open, any other code closed.
    pub fn from_code(code: i32) -> (r: Status)
        ensures
            r == if code == 1 {
                Status::Open
            } else {
                Status::Closed
            },
    {
        if code == 1 {
            Status::Open
        } else {
            Status::Closed
        }
    }
}

/// One trade as the metrics engine sees it. Amounts are integer counts of
/// the smallest currency unit the caller works in; `exit_day` is a day number.
#[derive(Clone, Copy, Debug, PartialEq, Eq, Structural)]
pub struct TradeRecord {
    pub exit_day: i32,
    pub status: Status,
    pub gross_pnl: i64,
    pub fee: i64,
}

/// Net result of a trade: gross result minus fee.
pub open spec fn net(t: TradeRecord) -> int {
    t.gross_pnl - t.fee
}

/// Sum of the values of `s`.
pub open spec fn total(s: Seq<i128>) -> int
    decreases s.len(),
{
    if s.len() == 0 {
        0
    } else {
        total(s.drop_last()) + s.last()
    }
}

/// Sum of the strictly positive values of `s`.
pub open spec fn gains(s: Seq<i128>) -> int
    decreases s.len(),
{
    if s.len() == 0 {
        0
    } else {
        gains(s.drop_last()) + if s.last() > 0 { s.last() as int } else { 0 }
    }
}

/// Sum of the magnitudes of the strictly negative values of `s`.
pub open spec fn losses(s: Seq<i128>) -> int
    decreases s.len(),
{
    if s.len() == 0 {
        0
    } else {
        losses(s.drop_last()) + if s.last() < 0 { -s.last() } else { 0 }
    }
}

/// Number of strictly positive values of `s`.
pub open spec fn count_gains(s: Seq<i128>) -> nat
    decreases s.len(),
{
    if s.len() == 0 {
        0
    } else {
        count_gains(s.drop_last()) + if s.last() > 0 { 1nat } else { 0nat }
    }
}

/// Number of strictly negative values of `s`.
pub open spec fn count_losses(s: Seq<i128>) -> nat
    decreases s.len(),
{
    if s.len() == 0 {
        0
    } else {
        count_losses(s.drop_last()) + if s.last() < 0 { 1nat } else { 0nat }
    }
}

/// `nets` holds the net result of each trade of `trades`, in order.
pub open spec fn nets_of(trades: Seq<TradeRecord>, nets: Seq<i128>) -> bool {
    &&& nets.len() == trades.len()
    &&& forall|i: int| 0 <= i < nets.len() ==> nets[i] == net(#[trigger] trades[i])
}

/// The net result of each trade of `trades`, in order.
pub open spec fn trade_nets(trades: Seq<TradeRecord>) -> Seq<i128> {
    trades.map_values(|t: TradeRecord| net(t) as i128)
}

/// Net results of a set of trades with their win and loss aggregates.
pub struct NetsSummary {
    pub nets: Vec<i128>,
    pub wins_sum: i128,
    pub losses_sum_abs: i128,
    pub wins_count: usize,
    pub losses_count: usize,
}

/// The summary's aggregates are those of its list of nets.
pub open spec fn summarizes(s: NetsSummary) -> bool {
    &&& s.wins_sum == gains(s.nets@)
    &&& s.losses_sum_abs == losses(s.nets@)
    &&& s.wins_count == count_gains(s.nets@)
    &&& s.losses_count == count_losses(s.nets@)
}

/// Net result of one trade.
pub fn net_of(t: &TradeRecord) -> (r: i128)
    ensures
        r == net(*t),
        -net_limit() < r < net_limit(),
{
    t.gross_pnl as i128 - t.fee as i128
}

/// Derives the net result of every trade, in input order, with the sum and
/// count of the winning nets and of the losing nets (as a magnitude). Nets
/// equal to zero count in neither bucket.
pub fn derive_nets(rows: &Vec<TradeRecord>) -> (r: NetsSummary)
    requires
        rows.len() <= MAX_TRADES,
    ensures
        nets_of(rows@, r.nets@),
        r.nets@ == trade_nets(rows@),
        summarizes(r),
{
    let mut nets: Vec<i128> = Vec::new();
    let mut wins_sum: i128 = 0;
    let mut losses_sum_abs: i128 = 0;
    let mut wins_count: usize = 0;
    let mut losses_count: usize = 0;
    let mut i: usize = 0;
    while i < rows.len()
        invariant
            i <= rows.len() <= MAX_TRADES,
            nets_of(rows@.subrange(0, i as int), nets@),
            wins_sum == gains(nets@),
            losses_sum_abs == losses(nets@),
            wins_count == count_gains(nets@),
            losses_count == count_losses(nets@),
            0 <= wins_sum <= i * net_limit(),
            0 <= losses_sum_abs <= i * net_limit(),
            wins_count <= i,
            losses_count <= i,
        decreases rows.len() - i,
    {
        let net = net_of(&rows[i]);
        let ghost before = nets@;
        if net > 0 {
            wins_sum = wins_sum + net;
            wins_count = wins_count + 1;
        } else if net < 0 {
            losses_sum_abs = losses_sum_abs - net;
            losses_count = losses_count + 1;
        }
        nets.push(net);
        proof {
            assert(nets@.drop_last() =~= before);
            assert(rows@.subrange(0, i + 1).drop_last() =~= rows@.subrange(0, i as int));
        }
        i = i + 1;
    }
    proof {
        assert(rows@.subrange(0, i as int) =~= rows@);
        assert(nets@ =~= trade_nets(rows@));
    }
    NetsSummary { nets, wins_sum, losses_sum_abs, wins_count, losses_count }
}

} // verus!
