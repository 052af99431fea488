use vstd::prelude::*;

use crate::policy::{COST_FLOOR_FEE_BPS, COST_FLOOR_SLIPPAGE_BPS};

verus! {

/// Absolute value of a signed fixed-point exposure, as a mathematical integer.
pub open spec fn magnitude(x: i32) -> int {
    if x < 0 {
        -x
    } else {
        x as int
    }
}

/// (disclosure tier) In-circuit exposure accounting.
///
/// Derived inside the circuit from the same position and leverage series that
/// produced the returns. All ratios are fixed-point x100 (150 = 1.50x).
#[derive(Debug, Clone)]
pub struct ExposureCard {
    /// Average / minimum / maximum net exposure over the window (signed, x100).
    pub net_avg_x100: i32,
    pub net_min_x100: i32,
    pub net_max_x100: i32,
    /// Average / maximum gross exposure (unsigned, x100).
    pub gross_avg_x100: u32,
    pub gross_max_x100: u32,
    /// The leverage rail the strategy declared; gross may never exceed it.
    pub leverage_cap_x100: u32,
    /// Number of instruments in the book.
    pub instruments: u32,
    /// Bar accounting: every bar in the window is long, short, or flat.
    pub bars_long: u64,
    pub bars_short: u64,
    pub bars_flat: u64,
}

impl ExposureCard {
    /// The card's structural consistency against a window of `window_bars` bars.
    pub open spec fn consistent_with(self, window_bars: u64) -> bool {
        &&& self.bars_long + self.bars_short + self.bars_flat == window_bars
        &&& self.net_min_x100 <= self.net_avg_x100
        &&& self.net_avg_x100 <= self.net_max_x100
        &&& self.gross_avg_x100 <= self.gross_max_x100
        &&& self.gross_max_x100 <= self.leverage_cap_x100
        &&& magnitude(self.net_max_x100) <= self.gross_max_x100
        &&& magnitude(self.net_min_x100) <= self.gross_max_x100
        &&& self.instruments >= 1
    }

    /// Structural consistency: the bar accounting covers the committed window
    /// exactly, the bands are ordered, gross respects the leverage rail, and net
    /// never exceeds gross in magnitude. The bar accounting is summed without
    /// wrapping, so counts whose sum exceeds `u64::MAX` never match a window.
    pub fn is_consistent(&self, window_bars: u64) -> (r: bool)
        ensures
            r == self.consistent_with(window_bars),
    {
        let covered: u128 = self.bars_long as u128 + self.bars_short as u128 + self.bars_flat as u128;
        let net_max_abs: i64 = if self.net_max_x100 < 0 {
            -(self.net_max_x100 as i64)
        } else {
            self.net_max_x100 as i64
        };
        let net_min_abs: i64 = if self.net_min_x100 < 0 {
            -(self.net_min_x100 as i64)
        } else {
            self.net_min_x100 as i64
        };
        covered == window_bars as u128
            && self.net_min_x100 <= self.net_avg_x100
            && self.net_avg_x100 <= self.net_max_x100
            && self.gross_avg_x100 <= self.gross_max_x100
            && self.gross_max_x100 <= self.leverage_cap_x100
            && net_max_abs <= self.gross_max_x100 as i64
            && net_min_abs <= self.gross_max_x100 as i64
            && self.instruments >= 1
    }
}

/// (disclosure tier) One bucket of regime-conditional performance.
#[derive(Debug, Clone)]
pub struct RegimeBucket {
    /// Mean per-bar return in this regime (bps x100 fixed-point).
    pub mean_return_bps_x100: i64,
    /// Bars labelled into this regime (strictly causal labels).
    pub bars: u64,
}

/// Total number of labelled bars over a sequence of regime buckets.
pub open spec fn total_bars(buckets: Seq<RegimeBucket>) -> int
    decreases buckets.len(),
{
    if buckets.len() == 0 {
        0
    } else {
        total_bars(buckets.drop_last()) + buckets.last().bars
    }
}

/// The labelled-bar total of a prefix never exceeds that of a longer prefix.
pub proof fn lemma_total_bars_prefix(buckets: Seq<RegimeBucket>, i: int, k: int)
    requires
        0 <= i <= k <= buckets.len(),
    ensures
        total_bars(buckets.take(i)) <= total_bars(buckets.take(k)),
    decreases k - i,
{
    if i < k {
        lemma_total_bars_prefix(buckets, i, k - 1);
        assert(buckets.take(k).drop_last() =~= buckets.take(k - 1));
    }
}

/// (disclosure tier) Regime-conditional performance under a pinned regime policy.
///
/// The regime policy (bucket definitions) is a protocol constant, so the prover
/// cannot shop for the bucketing that flatters the strategy.
#[derive(Debug, Clone)]
pub struct RegimePanel {
    /// Identifier of the regime policy used; must equal the pinned constant
    /// ([`crate::policy::PINNED_REGIME_POLICY_ID`]).
    pub policy_id: String,
    /// Exactly 6 buckets under the pinned policy (3 vol terciles x 2 trend states).
    pub buckets: Vec<RegimeBucket>,
}

/// Number of buckets under the pinned regime policy.
pub const PINNED_REGIME_BUCKETS: usize = 6;

impl RegimePanel {
    /// The panel's structural consistency against a window of `window_bars` bars.
    pub open spec fn consistent_with(self, window_bars: u64) -> bool {
        &&& self.buckets@.len() == PINNED_REGIME_BUCKETS
        &&& total_bars(self.buckets@) > 0
        &&& total_bars(self.buckets@) <= window_bars
    }

    /// Structural consistency: exactly 6 buckets, at least one labelled bar, and
    /// the labelled bars never exceed the committed window (causal labels need
    /// warm-up, so the total is at most the window, not equal to it). The total
    /// is taken without wrapping.
    pub fn is_consistent(&self, window_bars: u64) -> (r: bool)
        ensures
            r == self.consistent_with(window_bars),
    {
        let n = self.buckets.len();
        let mut total: u64 = 0;
        let mut i: usize = 0;
        while i < n
            invariant
                n == self.buckets@.len(),
                0 <= i <= n,
                total == total_bars(self.buckets@.take(i as int)),
                total <= window_bars,
            decreases n - i,
        {
            let bars = self.buckets[i].bars;
            assert(self.buckets@.take(i + 1).drop_last() =~= self.buckets@.take(i as int));
            if bars > window_bars - total {
                proof {
                    lemma_total_bars_prefix(self.buckets@, i + 1, n as int);
                    assert(self.buckets@.take(n as int) =~= self.buckets@);
                }
                return false;
            }
            total = total + bars;
            i = i + 1;
        }
        assert(self.buckets@.take(n as int) =~= self.buckets@);
        n == PINNED_REGIME_BUCKETS && total > 0
    }
}

/// The public values committed in a proof journal.
///
/// These are the only things a verifier sees; none of them reveal the strategy.
#[derive(Debug, Clone)]
pub struct Journal {
    /// Identifier of the guest program that produced the proof.
    pub image_id: String,
    /// Identifier/hash of the policy evaluated in-circuit.
    pub gate_policy: String,
    /// Commitment to the canonical dataset used.
    pub data_root: String,
    /// Commitment to the canonicalization rules (timezone, adjustments, point-in-time).
    pub dataset_canonicalization: String,
    /// In-circuit pass/fail over all declared conditions.
    pub verdict_pass: bool,
    /// Assertion that no strategy parameters are revealed in the journal.
    pub strategy_hidden: bool,
    /// Credential format version committed in-circuit. `1` = close-marked risk;
    /// `2` adds intrabar marking and the bound annualization basis; `3` adds the
    /// exposure card; `4` adds the pinned regime panel. Absent in a v1 journal,
    /// where it decodes to [`default_format_version`].
    pub format_version: u16,
    /// True iff drawdown and worst-bar were marked against intrabar extremes.
    /// Absent in a v1 journal, where it decodes to `false`.
    pub intrabar_marked: bool,
    /// Number of bars in the committed evaluation window (absent: `0`).
    pub window_bars: u64,
    /// In-circuit exposure accounting; `None` for output-minimized credentials.
    pub exposure_card: Option<ExposureCard>,
    /// Regime-conditional performance under the pinned regime policy.
    pub regime_panel: Option<RegimePanel>,
    /// Committed fee (bps per position change); absent: [`default_fee_bps`].
    pub fee_bps: i64,
    /// Committed slippage (bps per position change); absent: [`default_slippage_bps`].
    pub slippage_bps: i64,
    /// Overall commitment binding the journal.
    pub digest: String,
}

/// The fee committed by a journal that predates cost disclosure: such journals
/// were minted at the protocol floor.
pub fn default_fee_bps() -> (r: i64)
    ensures
        r == COST_FLOOR_FEE_BPS,
{
    COST_FLOOR_FEE_BPS
}

/// The slippage committed by a journal that predates cost disclosure.
pub fn default_slippage_bps() -> (r: i64)
    ensures
        r == COST_FLOOR_SLIPPAGE_BPS,
{
    COST_FLOOR_SLIPPAGE_BPS
}

/// A journal without a `format_version` is a v1 journal.
pub fn default_format_version() -> (r: u16)
    ensures
        r == 1,
{
    1
}

} // verus!
