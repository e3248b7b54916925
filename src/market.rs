//! Trade-volume aggregation, whale-transfer detection and flow-balance trends.
//!
//! Amounts are fixed-point: one unit of an asset is `MICRO_PER_UNIT` micro-units.
use vstd::prelude::*;
use crate::text::same_text;

verus! {

/// Micro-units in one whole unit of an asset.
pub const MICRO_PER_UNIT: u64 = 1_000_000;

/// A transfer is significant when it moves strictly more than this many micro-units
/// (one thousand whole units).
pub const WHALE_THRESHOLD: u64 = 1000 * MICRO_PER_UNIT;

/// One observation of traded quantity for a symbol.
#[derive(Clone, Debug)]
pub struct TradeVolume {
    pub symbol: String,
    /// Traded quantity in micro-units.
    pub volume: u64,
    pub timestamp: String,
}

/// One wallet-level transfer event.
#[derive(Clone, Debug)]
pub struct WhaleTransaction {
    pub wallet_address: String,
    /// Transferred amount in micro-units.
    pub amount_transferred: u64,
    /// `"in"` for an inflow, `"out"` for an outflow; anything else counts on neither side.
    pub direction: String,
    pub timestamp: String,
}

impl WhaleTransaction {
    /// A field-by-field copy.
    pub fn duplicate(&self) -> (r: Self)
        ensures
            r == *self,
    {
        WhaleTransaction {
            wallet_address: self.wallet_address.clone(),
            amount_transferred: self.amount_transferred,
            direction: self.direction.clone(),
            timestamp: self.timestamp.clone(),
        }
    }
}

/// The summed volume of one symbol.
#[derive(Clone, Debug)]
pub struct VolumeAggregate {
    pub symbol: String,
    /// Sum of the matching volumes, in micro-units.
    pub total_volume: u128,
}

/// A coarse market direction.
#[derive(Clone, Copy, Debug, PartialEq, Eq, Structural)]
pub enum TrendLabel {
    Bullish,
    Bearish,
    Neutral,
}

/// Empty results of the market operations.
#[derive(Clone, Debug)]
pub enum MarketError {
    /// No record carried the requested symbol.
    NoVolumeData { symbol: String },
    /// No transfer exceeded the significance threshold.
    NoWhaleTransactions,
}

/// The analysis entry points over trade and transfer batches.
pub struct MarketAnalysis;

/// Sum of the volumes of the records whose symbol is exactly `sym`.
pub open spec fn volume_sum(recs: Seq<TradeVolume>, sym: Seq<char>) -> int
    decreases recs.len(),
{
    if recs.len() == 0 {
        0
    } else {
        volume_sum(recs.drop_last(), sym) + if recs.last().symbol@ == sym {
            recs.last().volume as int
        } else {
            0
        }
    }
}

/// Some record carries the symbol `sym`.
pub open spec fn has_symbol(recs: Seq<TradeVolume>, sym: Seq<char>) -> bool {
    exists|i: int| 0 <= i < recs.len() && #[trigger] recs[i].symbol@ == sym
}

/// A transfer is significant (a "whale" transfer).
pub open spec fn is_whale(t: WhaleTransaction) -> bool {
    t.amount_transferred > WHALE_THRESHOLD
}

/// The significant transfers of `s`, in their original order.
pub open spec fn whales(s: Seq<WhaleTransaction>) -> Seq<WhaleTransaction> {
    s.filter(|t: WhaleTransaction| is_whale(t))
}

/// Sum of the amounts of the transfers whose direction is exactly `dir`.
pub open spec fn flow_sum(s: Seq<WhaleTransaction>, dir: Seq<char>) -> int
    decreases s.len(),
{
    if s.len() == 0 {
        0
    } else {
        flow_sum(s.drop_last(), dir) + if s.last().direction@ == dir {
            s.last().amount_transferred as int
        } else {
            0
        }
    }
}

/// Total inflow of a batch.
pub open spec fn inflow(s: Seq<WhaleTransaction>) -> int {
    flow_sum(s, "in"@)
}

/// Total outflow of a batch.
pub open spec fn outflow(s: Seq<WhaleTransaction>) -> int {
    flow_sum(s, "out"@)
}

/// The trend that an inflow total and an outflow total indicate.
pub open spec fn flow_label(total_in: int, total_out: int) -> TrendLabel {
    if total_in > total_out {
        TrendLabel::Bullish
    } else if total_out > total_in {
        TrendLabel::Bearish
    } else {
        TrendLabel::Neutral
    }
}

/// A sum of `n` volumes is at most `n` times the largest volume.
proof fn lemma_volume_sum_bound(recs: Seq<TradeVolume>, sym: Seq<char>)
    ensures
        0 <= volume_sum(recs, sym) <= recs.len() * (u64::MAX as int),
    decreases recs.len(),
{
    if recs.len() > 0 {
        lemma_volume_sum_bound(recs.drop_last(), sym);
    }
}

/// A sum of `n` transfer amounts is at most `n` times the largest amount.
proof fn lemma_flow_sum_bound(s: Seq<WhaleTransaction>, dir: Seq<char>)
    ensures
        0 <= flow_sum(s, dir) <= s.len() * (u64::MAX as int),
    decreases s.len(),
{
    if s.len() > 0 {
        lemma_flow_sum_bound(s.drop_last(), dir);
    }
}

/// `i + 1` values that each fit in 64 bits sum to something that fits in 128 bits.
proof fn lemma_sum_fits(i: int, total: int, v: int)
    requires
        0 <= i < usize::MAX,
        0 <= total <= i * (u64::MAX as int),
        0 <= v <= u64::MAX,
    ensures
        total + v <= (i + 1) * (u64::MAX as int),
        total + v <= u128::MAX,
{
    assert((i + 1) * (u64::MAX as int) <= (usize::MAX as int) * (u64::MAX as int))
        by (nonlinear_arith)
        requires
            0 <= i < usize::MAX,
    ;
    assert((usize::MAX as int) * (u64::MAX as int) <= u128::MAX) by (nonlinear_arith)
        requires
            usize::MAX <= u64::MAX,
    ;
}

impl MarketError {
    /// A human-readable description of the error.
    pub fn message(&self) -> (r: String)
        ensures
            match self {
                MarketError::NoVolumeData { symbol } => r@ == "No data found for symbol "@
                    + symbol@,
                MarketError::NoWhaleTransactions => r@ == "No whale transactions detected"@,
            },
    {
        match self {
            MarketError::NoVolumeData { symbol } => {
                let head = String::from_str("No data found for symbol ");
                head.concat(symbol.as_str())
            },
            MarketError::NoWhaleTransactions => String::from_str(
                "No whale transactions detected",
            ),
        }
    }
}

impl TrendLabel {
    /// The sentence that reports a flow-based trend.
    pub fn behavior_message(&self) -> (r: String)
        ensures
            *self == TrendLabel::Bullish ==> r@
                == "Bullish market trend detected based on wallet inflows."@,
            *self == TrendLabel::Bearish ==> r@
                == "Bearish market trend detected based on wallet outflows."@,
            *self == TrendLabel::Neutral ==> r@ == "Neutral market detected."@,
    {
        match self {
            TrendLabel::Bullish => String::from_str(
                "Bullish market trend detected based on wallet inflows.",
            ),
            TrendLabel::Bearish => String::from_str(
                "Bearish market trend detected based on wallet outflows.",
            ),
            TrendLabel::Neutral => String::from_str("Neutral market detected."),
        }
    }
}

impl MarketAnalysis {
    /// Sums the volume of every record whose symbol equals `symbol` exactly; fails
    /// when no record carries it.
    pub fn track_volume(symbol: &str, volume_data: Vec<TradeVolume>) -> (r: Result<
        VolumeAggregate,
        MarketError,
    >)
        ensures
            r.is_ok() <==> has_symbol(volume_data@, symbol@),
            match r {
                Ok(a) => a.symbol@ == symbol@ && a.total_volume == volume_sum(
                    volume_data@,
                    symbol@,
                ),
                Err(e) => match e {
                    MarketError::NoVolumeData { symbol: s } => s@ == symbol@,
                    MarketError::NoWhaleTransactions => false,
                },
            },
    {
        let n = volume_data.len();
        let mut total: u128 = 0;
        let mut found = false;
        let mut i: usize = 0;
        while i < n
            invariant
                n == volume_data@.len(),
                i <= n,
                total == volume_sum(volume_data@.take(i as int), symbol@),
                found <==> has_symbol(volume_data@.take(i as int), symbol@),
            decreases n - i,
        {
            let rec = &volume_data[i];
            let ghost prefix = volume_data@.take(i as int);
            let ghost next = volume_data@.take(i + 1);
            proof {
                assert(next.drop_last() =~= prefix);
                lemma_volume_sum_bound(prefix, symbol@);
            }
            if same_text(rec.symbol.as_str(), symbol) {
                proof {
                    lemma_sum_fits(i as int, total as int, rec.volume as int);
                    assert(next[i as int].symbol@ == symbol@);
                }
                total = total + rec.volume as u128;
                found = true;
            } else {
                proof {
                    if has_symbol(next, symbol@) {
                        let k = choose|k: int|
                            0 <= k < next.len() && #[trigger] next[k].symbol@ == symbol@;
                        assert(k < i);
                        assert(prefix[k] == next[k]);
                    }
                }
            }
            proof {
                if has_symbol(prefix, symbol@) {
                    let k = choose|k: int|
                        0 <= k < prefix.len() && #[trigger] prefix[k].symbol@ == symbol@;
                    assert(next[k] == prefix[k]);
                }
            }
            i = i + 1;
        }
        assert(volume_data@.take(n as int) =~= volume_data@);
        if !found {
            return Err(MarketError::NoVolumeData { symbol: String::from_str(symbol) });
        }
        Ok(VolumeAggregate { symbol: String::from_str(symbol), total_volume: total })
    }

    /// Keeps the transfers of more than `WHALE_THRESHOLD` micro-units, in input
    /// order; fails when there are none.
    pub fn track_whale_transactions(transactions: Vec<WhaleTransaction>) -> (r: Result<
        Vec<WhaleTransaction>,
        MarketError,
    >)
        ensures
            r.is_ok() <==> whales(transactions@).len() > 0,
            match r {
                Ok(v) => v@ == whales(transactions@),
                Err(e) => e == MarketError::NoWhaleTransactions,
            },
    {
        let n = transactions.len();
        let mut found: Vec<WhaleTransaction> = Vec::new();
        let mut i: usize = 0;
        while i < n
            invariant
                n == transactions@.len(),
                i <= n,
                found@ == whales(transactions@.take(i as int)),
            decreases n - i,
        {
            let t = &transactions[i];
            proof {
                let next = transactions@.take(i + 1);
                assert(next.drop_last() =~= transactions@.take(i as int));
                reveal(Seq::filter);
            }
            if t.amount_transferred > WHALE_THRESHOLD {
                found.push(t.duplicate());
            }
            i = i + 1;
        }
        assert(transactions@.take(n as int) =~= transactions@);
        if found.len() == 0 {
            return Err(MarketError::NoWhaleTransactions);
        }
        Ok(found)
    }

    /// Compares total inflow with total outflow: more in is bullish, more out is
    /// bearish, equal totals (also both zero) are neutral.
    pub fn analyze_market_behavior(wallets_data: Vec<WhaleTransaction>) -> (r: TrendLabel)
        ensures
            r == flow_label(inflow(wallets_data@), outflow(wallets_data@)),
    {
        let n = wallets_data.len();
        let mut total_in: u128 = 0;
        let mut total_out: u128 = 0;
        let mut i: usize = 0;
        while i < n
            invariant
                n == wallets_data@.len(),
                i <= n,
                total_in == inflow(wallets_data@.take(i as int)),
                total_out == outflow(wallets_data@.take(i as int)),
            decreases n - i,
        {
            let t = &wallets_data[i];
            let ghost prefix = wallets_data@.take(i as int);
            proof {
                assert(wallets_data@.take(i + 1).drop_last() =~= prefix);
                lemma_flow_sum_bound(prefix, "in"@);
                lemma_flow_sum_bound(prefix, "out"@);
            }
            if same_text(t.direction.as_str(), "in") {
                proof {
                    lemma_sum_fits(i as int, total_in as int, t.amount_transferred as int);
                    reveal_strlit("in");
                    reveal_strlit("out");
                    assert("in"@.len() != "out"@.len());
                }
                total_in = total_in + t.amount_transferred as u128;
            } else if same_text(t.direction.as_str(), "out") {
                proof {
                    lemma_sum_fits(i as int, total_out as int, t.amount_transferred as int);
                }
                total_out = total_out + t.amount_transferred as u128;
            }
            i = i + 1;
        }
        assert(wallets_data@.take(n as int) =~= wallets_data@);
        if total_in > total_out {
            TrendLabel::Bullish
        } else if total_out > total_in {
            TrendLabel::Bearish
        } else {
            TrendLabel::Neutral
        }
    }
}

/// The whale selection keeps exactly the significant transfers: every kept
/// transfer is significant and comes from the batch, every significant transfer of
/// the batch is kept, and nothing is kept exactly when no transfer is significant.
pub proof fn lemma_whales_exact(s: Seq<WhaleTransaction>)
    ensures
        forall|i: int|
            0 <= i < whales(s).len() ==> is_whale(#[trigger] whales(s)[i]) && s.contains(
                whales(s)[i],
            ),
        forall|i: int| 0 <= i < s.len() && is_whale(#[trigger] s[i]) ==> whales(s).contains(s[i]),
        whales(s).len() == 0 <==> forall|i: int| 0 <= i < s.len() ==> !is_whale(#[trigger] s[i]),
{
    let pred = |t: WhaleTransaction| is_whale(t);
    assert forall|i: int| 0 <= i < whales(s).len() implies is_whale(#[trigger] whales(s)[i])
        && s.contains(whales(s)[i]) by {
        s.lemma_filter_pred(pred, i);
        s.lemma_filter_contains_rev(pred, whales(s)[i]);
    }
    assert forall|i: int| 0 <= i < s.len() && is_whale(#[trigger] s[i]) implies whales(
        s,
    ).contains(s[i]) by {
        s.lemma_filter_contains(pred, i);
    }
    if whales(s).len() == 0 {
        assert forall|i: int| 0 <= i < s.len() implies !is_whale(#[trigger] s[i]) by {
            if is_whale(s[i]) {
                s.lemma_filter_contains(pred, i);
            }
        }
    }
    if whales(s).len() > 0 {
        assert(is_whale(whales(s)[0]));
        s.lemma_filter_contains_rev(pred, whales(s)[0]);
    }
}

/// A batch without the symbol sums to zero for it, and a batch with it sums to
/// at least the volume of each matching record.
pub proof fn lemma_volume_sum_matching(recs: Seq<TradeVolume>, sym: Seq<char>)
    ensures
        !has_symbol(recs, sym) ==> volume_sum(recs, sym) == 0,
        forall|i: int|
            0 <= i < recs.len() && #[trigger] recs[i].symbol@ == sym ==> recs[i].volume
                <= volume_sum(recs, sym),
    decreases recs.len(),
{
    if recs.len() > 0 {
        let init = recs.drop_last();
        lemma_volume_sum_matching(init, sym);
        lemma_volume_sum_bound(init, sym);
        if !has_symbol(recs, sym) {
            assert forall|i: int| 0 <= i < init.len() implies #[trigger] init[i].symbol@ != sym by {
                assert(recs[i] == init[i]);
            }
        }
        assert forall|i: int|
            0 <= i < recs.len() && #[trigger] recs[i].symbol@ == sym implies recs[i].volume
            <= volume_sum(recs, sym) by {
            if i < init.len() {
                assert(init[i] == recs[i]);
            }
        }
    }
}

/// The flow rule is total and decided by the two sums alone: a batch whose inflow
/// and outflow are both zero (an empty batch among them) is neutral, and each
/// label comes exactly from its comparison.
pub proof fn lemma_flow_label_cases(s: Seq<WhaleTransaction>)
    ensures
        (flow_label(inflow(s), outflow(s)) == TrendLabel::Bullish) <==> inflow(s) > outflow(s),
        (flow_label(inflow(s), outflow(s)) == TrendLabel::Bearish) <==> outflow(s) > inflow(s),
        (flow_label(inflow(s), outflow(s)) == TrendLabel::Neutral) <==> inflow(s) == outflow(s),
        s.len() == 0 ==> flow_label(inflow(s), outflow(s)) == TrendLabel::Neutral,
{
}

/// Volume totals add up over the parts of a batch, so splitting a batch or
/// reordering its parts leaves the total of every symbol unchanged.
pub proof fn lemma_volume_sum_split(a: Seq<TradeVolume>, b: Seq<TradeVolume>, sym: Seq<char>)
    ensures
        volume_sum(a + b, sym) == volume_sum(a, sym) + volume_sum(b, sym),
        volume_sum(a + b, sym) == volume_sum(b + a, sym),
{
    lemma_volume_sum_concat(a, b, sym);
    lemma_volume_sum_concat(b, a, sym);
}

proof fn lemma_volume_sum_concat(a: Seq<TradeVolume>, b: Seq<TradeVolume>, sym: Seq<char>)
    ensures
        volume_sum(a + b, sym) == volume_sum(a, sym) + volume_sum(b, sym),
    decreases b.len(),
{
    if b.len() == 0 {
        assert(a + b =~= a);
    } else {
        lemma_volume_sum_concat(a, b.drop_last(), sym);
        assert((a + b).drop_last() =~= a + b.drop_last());
        assert((a + b).last() == b.last());
    }
}

} // verus!
