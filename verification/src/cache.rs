//! Per-category cache statistics derived from cumulative counters.

use crate::ratio::Ratio;
use vstd::prelude::*;

verus! {

/// Cumulative counters of one operation category.
#[derive(Clone, Copy, Debug, PartialEq, Eq, Structural)]
pub struct CategoryCounters {
    pub access_count: u64,
    pub hit_count: u64,
    pub miss_count: u64,
    pub penalty_cycles: u64,
}

/// Statistics of one row: a category, or the sum over all categories.
///
/// `miss_ratio` is misses per access; `avg_penalty` is penalty cycles per
/// miss. Both are exact, and zero where their denominator would be zero.
#[derive(Clone, Copy, Debug, PartialEq, Eq, Structural)]
pub struct CacheStat {
    pub hits: u64,
    pub misses: u64,
    pub miss_ratio: Ratio,
    pub penalty_cycles: u64,
    pub avg_penalty: Ratio,
}

/// Unbounded sums of the four counters over a sequence of categories.
pub struct Tally {
    pub accesses: int,
    pub hits: int,
    pub misses: int,
    pub penalty_cycles: int,
}

impl Tally {
    /// Every sum can be held in a `u64`.
    pub open spec fn fits(self) -> bool {
        &&& self.accesses <= u64::MAX
        &&& self.hits <= u64::MAX
        &&& self.misses <= u64::MAX
        &&& self.penalty_cycles <= u64::MAX
    }

    /// The sums as counters of a synthetic category.
    pub open spec fn as_counters(self) -> CategoryCounters {
        CategoryCounters {
            access_count: self.accesses as u64,
            hit_count: self.hits as u64,
            miss_count: self.misses as u64,
            penalty_cycles: self.penalty_cycles as u64,
        }
    }
}

/// The sums of the counters of all categories in `s`.
pub open spec fn tally(s: Seq<CategoryCounters>) -> Tally
    decreases s.len(),
{
    if s.len() == 0 {
        Tally { accesses: 0, hits: 0, misses: 0, penalty_cycles: 0 }
    } else {
        let rest = tally(s.drop_last());
        let c = s.last();
        Tally {
            accesses: rest.accesses + c.access_count,
            hits: rest.hits + c.hit_count,
            misses: rest.misses + c.miss_count,
            penalty_cycles: rest.penalty_cycles + c.penalty_cycles,
        }
    }
}

/// The row derived from one set of counters.
pub open spec fn stat_of(c: CategoryCounters) -> CacheStat {
    CacheStat {
        hits: c.hit_count,
        misses: c.miss_count,
        miss_ratio: Ratio::guarded(c.miss_count, c.access_count),
        penalty_cycles: c.penalty_cycles,
        avg_penalty: Ratio::guarded(c.penalty_cycles, c.miss_count),
    }
}

/// The whole table: one row per category, in order, then the row of the sums.
pub open spec fn stats_of(s: Seq<CategoryCounters>) -> Seq<CacheStat> {
    s.map_values(|c: CategoryCounters| stat_of(c)).push(stat_of(tally(s).as_counters()))
}

/// The sums over a prefix never exceed the sums over the whole sequence.
pub proof fn lemma_tally_prefix(s: Seq<CategoryCounters>, k: int)
    requires
        0 <= k <= s.len(),
    ensures
        0 <= tally(s.take(k)).accesses <= tally(s).accesses,
        0 <= tally(s.take(k)).hits <= tally(s).hits,
        0 <= tally(s.take(k)).misses <= tally(s).misses,
        0 <= tally(s.take(k)).penalty_cycles <= tally(s).penalty_cycles,
    decreases s.len(),
{
    if s.len() == 0 {
        assert(s.take(k) =~= s);
    } else if k == s.len() {
        assert(s.take(k) =~= s);
        lemma_tally_prefix(s.drop_last(), k - 1);
    } else {
        lemma_tally_prefix(s.drop_last(), k);
        assert(s.drop_last().take(k) =~= s.take(k));
    }
}

impl CacheStat {
    /// Derives the row of one category, or of the sums, from its counters.
    pub fn from_counters(c: &CategoryCounters) -> (stat: CacheStat)
        ensures
            stat == stat_of(*c),
            stat.hits == c.hit_count,
            stat.misses == c.miss_count,
            stat.penalty_cycles == c.penalty_cycles,
            stat.miss_ratio.wf(),
            stat.avg_penalty.wf(),
            c.access_count == 0 ==> stat.miss_ratio.is_zero(),
            c.miss_count == 0 ==> stat.avg_penalty.is_zero(),
    {
        CacheStat {
            hits: c.hit_count,
            misses: c.miss_count,
            miss_ratio: Ratio::new_guarded(c.miss_count, c.access_count),
            penalty_cycles: c.penalty_cycles,
            avg_penalty: Ratio::new_guarded(c.penalty_cycles, c.miss_count),
        }
    }
}

/// Sums the counters of all categories, or reports that a sum leaves `u64`.
pub fn checked_totals(counters: &Vec<CategoryCounters>) -> (total: Option<CategoryCounters>)
    ensures
        total.is_some() <==> tally(counters@).fits(),
        total matches Some(t) ==> t == tally(counters@).as_counters(),
{
    let mut acc = CategoryCounters { access_count: 0, hit_count: 0, miss_count: 0, penalty_cycles: 0 };
    let mut i: usize = 0;
    while i < counters.len()
        invariant
            i <= counters.len(),
            tally(counters@.take(i as int)).fits(),
            acc == tally(counters@.take(i as int)).as_counters(),
        decreases counters.len() - i,
    {
        let c = &counters[i];
        proof {
            lemma_tally_prefix(counters@, i as int);
            lemma_tally_prefix(counters@, i + 1);
            assert(counters@.take(i + 1).drop_last() =~= counters@.take(i as int));
        }
        let accesses = acc.access_count.checked_add(c.access_count);
        let hits = acc.hit_count.checked_add(c.hit_count);
        let misses = acc.miss_count.checked_add(c.miss_count);
        let penalty = acc.penalty_cycles.checked_add(c.penalty_cycles);
        match (accesses, hits, misses, penalty) {
            (Some(a), Some(h), Some(m), Some(p)) => {
                acc = CategoryCounters {
                    access_count: a,
                    hit_count: h,
                    miss_count: m,
                    penalty_cycles: p,
                };
            },
            _ => {
                return None;
            },
        }
        i += 1;
    }
    proof {
        assert(counters@.take(counters.len() as int) =~= counters@);
    }
    Some(acc)
}

/// Derives the table of statistics from a snapshot of per-category counters:
/// one row per category in the order given, then the row of the sums.
pub fn aggregate(counters: &Vec<CategoryCounters>) -> (rows: Vec<CacheStat>)
    requires
        tally(counters@).fits(),
    ensures
        rows@ == stats_of(counters@),
        rows.len() == counters.len() + 1,
        forall|i: int| 0 <= i < counters.len() ==> rows@[i] == stat_of(#[trigger] counters@[i]),
        rows@[counters.len() as int] == stat_of(tally(counters@).as_counters()),
{
    let total = checked_totals(counters).unwrap();
    let mut rows: Vec<CacheStat> = Vec::new();
    let mut i: usize = 0;
    while i < counters.len()
        invariant
            i <= counters.len(),
            rows@ == counters@.take(i as int).map_values(|c: CategoryCounters| stat_of(c)),
        decreases counters.len() - i,
    {
        rows.push(CacheStat::from_counters(&counters[i]));
        proof {
            assert(rows@ =~= counters@.take(i + 1).map_values(|c: CategoryCounters| stat_of(c)));
        }
        i += 1;
    }
    proof {
        assert(counters@.take(counters.len() as int) =~= counters@);
    }
    rows.push(CacheStat::from_counters(&total));
    rows
}

/// Where every access is a hit or a miss, the miss ratio is the misses over
/// the accesses if there was an access and zero if there was none, and it
/// lies between zero and one.
pub proof fn lemma_miss_ratio(c: CategoryCounters)
    requires
        c.access_count == c.hit_count + c.miss_count,
    ensures
        c.access_count > 0 ==> stat_of(c).miss_ratio == (Ratio {
            numerator: c.miss_count,
            denominator: c.access_count,
        }),
        c.access_count == 0 ==> stat_of(c).miss_ratio == Ratio::zero(),
        stat_of(c).miss_ratio.wf(),
        stat_of(c).miss_ratio.at_most_one(),
{
}

/// The miss ratio of the last row is the sum of the misses over the sum of
/// the accesses, and zero where nothing was accessed.
pub proof fn lemma_total_is_ratio_of_sums(s: Seq<CategoryCounters>)
    requires
        tally(s).fits(),
    ensures
        stats_of(s).len() == s.len() + 1,
        stats_of(s).last().hits == tally(s).hits,
        stats_of(s).last().misses == tally(s).misses,
        stats_of(s).last().penalty_cycles == tally(s).penalty_cycles,
        tally(s).accesses > 0 ==> stats_of(s).last().miss_ratio.numerator == tally(s).misses
            && stats_of(s).last().miss_ratio.denominator == tally(s).accesses,
        tally(s).accesses == 0 ==> stats_of(s).last().miss_ratio == Ratio::zero(),
{
    lemma_tally_prefix(s, 0);
}

/// Without a miss the average penalty is zero, whatever penalty was counted.
pub proof fn lemma_no_miss_no_penalty(c: CategoryCounters)
    requires
        c.miss_count == 0,
    ensures
        stat_of(c).avg_penalty == Ratio::zero(),
        stat_of(c).avg_penalty.is_zero(),
{
}

/// Two tables derived from the same snapshot are equal, row by row and field by field.
pub proof fn lemma_aggregate_is_repeatable(
    counters: Seq<CategoryCounters>,
    first: Seq<CacheStat>,
    second: Seq<CacheStat>,
)
    requires
        first == stats_of(counters),
        second == stats_of(counters),
    ensures
        first == second,
        first.len() == second.len(),
        forall|i: int| 0 <= i < first.len() ==> first[i] == second[i],
{
}

} // verus!
