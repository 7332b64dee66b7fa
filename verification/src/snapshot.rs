//! The tracked operation categories, a snapshot of their counters, and the
//! table of statistics keyed by category.

use crate::cache::{aggregate, checked_totals, stat_of, stats_of, tally, CacheStat, CategoryCounters, Tally};
use vstd::prelude::*;

verus! {

/// The number of tracked categories.
pub const CATEGORY_COUNT: usize = 4;

/// A tracked class of state lookups.
#[derive(Clone, Copy, Debug, PartialEq, Eq, Structural)]
pub enum Category {
    BlockHash,
    CodeByHash,
    LoadAccount,
    Storage,
}

impl Category {
    /// The row of the category in every table.
    pub open spec fn position(self) -> int {
        match self {
            Category::BlockHash => 0,
            Category::CodeByHash => 1,
            Category::LoadAccount => 2,
            Category::Storage => 3,
        }
    }

    /// The displayed name of the category.
    pub open spec fn name(self) -> Seq<char> {
        match self {
            Category::BlockHash => "blockhash"@,
            Category::CodeByHash => "code_by_hash"@,
            Category::LoadAccount => "load_account/basic"@,
            Category::Storage => "storage"@,
        }
    }

    /// The row of the category in every table.
    pub fn index(self) -> (i: usize)
        ensures
            i == self.position(),
            i < CATEGORY_COUNT,
    {
        match self {
            Category::BlockHash => 0,
            Category::CodeByHash => 1,
            Category::LoadAccount => 2,
            Category::Storage => 3,
        }
    }

    /// The category of a row, if the row is that of a category.
    pub fn from_index(i: usize) -> (c: Option<Category>)
        ensures
            c.is_some() <==> i < CATEGORY_COUNT,
            c matches Some(k) ==> k.position() == i,
    {
        if i == 0 {
            Some(Category::BlockHash)
        } else if i == 1 {
            Some(Category::CodeByHash)
        } else if i == 2 {
            Some(Category::LoadAccount)
        } else if i == 3 {
            Some(Category::Storage)
        } else {
            None
        }
    }

    /// The displayed name of the category.
    pub fn label(self) -> (s: &'static str)
        ensures
            s@ == self.name(),
    {
        match self {
            Category::BlockHash => "blockhash",
            Category::CodeByHash => "code_by_hash",
            Category::LoadAccount => "load_account/basic",
            Category::Storage => "storage",
        }
    }
}

/// The displayed name of the row of the sums.
pub fn total_label() -> (s: &'static str)
    ensures
        s@ == "total"@,
{
    "total"
}

/// The counters of every category at one point in time.
#[derive(Clone, Copy, Debug, PartialEq, Eq, Structural)]
pub struct CounterSnapshot {
    pub block_hash: CategoryCounters,
    pub code_by_hash: CategoryCounters,
    pub load_account: CategoryCounters,
    pub storage: CategoryCounters,
}

impl CounterSnapshot {
    /// The counters of one category.
    pub open spec fn of(self, category: Category) -> CategoryCounters {
        match category {
            Category::BlockHash => self.block_hash,
            Category::CodeByHash => self.code_by_hash,
            Category::LoadAccount => self.load_account,
            Category::Storage => self.storage,
        }
    }

    /// The counters of all categories, each at its position.
    pub open spec fn view(self) -> Seq<CategoryCounters> {
        seq![self.block_hash, self.code_by_hash, self.load_account, self.storage]
    }

    /// The sums of the counters over the four categories.
    pub open spec fn sums(self) -> Tally {
        Tally {
            accesses: self.block_hash.access_count + self.code_by_hash.access_count
                + self.load_account.access_count + self.storage.access_count,
            hits: self.block_hash.hit_count + self.code_by_hash.hit_count
                + self.load_account.hit_count + self.storage.hit_count,
            misses: self.block_hash.miss_count + self.code_by_hash.miss_count
                + self.load_account.miss_count + self.storage.miss_count,
            penalty_cycles: self.block_hash.penalty_cycles + self.code_by_hash.penalty_cycles
                + self.load_account.penalty_cycles + self.storage.penalty_cycles,
        }
    }

    /// The tally of the ordered counters is the sum over the four categories.
    pub proof fn lemma_tally(self)
        ensures
            tally(self@) == self.sums(),
            self@.len() == CATEGORY_COUNT,
            forall|c: Category| self@[c.position()] == #[trigger] self.of(c),
    {
        let s3 = self@.drop_last();
        let s2 = s3.drop_last();
        let s1 = s2.drop_last();
        assert(s1.drop_last().len() == 0);
        reveal_with_fuel(tally, 5);
    }

    /// The counters of one category.
    pub fn get(&self, category: Category) -> (c: CategoryCounters)
        ensures
            c == self.of(category),
    {
        match category {
            Category::BlockHash => self.block_hash,
            Category::CodeByHash => self.code_by_hash,
            Category::LoadAccount => self.load_account,
            Category::Storage => self.storage,
        }
    }

    /// The counters of all categories, each at its position.
    pub fn ordered(&self) -> (v: Vec<CategoryCounters>)
        ensures
            v@ == self@,
    {
        let mut v: Vec<CategoryCounters> = Vec::new();
        v.push(self.block_hash);
        v.push(self.code_by_hash);
        v.push(self.load_account);
        v.push(self.storage);
        proof {
            assert(v@ =~= self@);
        }
        v
    }

    /// The sums over the four categories, or `None` where one leaves `u64`.
    pub fn checked_sums(&self) -> (total: Option<CategoryCounters>)
        ensures
            total.is_some() <==> self.sums().fits(),
            total matches Some(t) ==> t == self.sums().as_counters(),
    {
        proof {
            self.lemma_tally();
        }
        checked_totals(&self.ordered())
    }
}

/// The table derived from a snapshot: a row for each category at the
/// category's position, then the row of the sums.
#[derive(Clone, Debug)]
pub struct CacheStats {
    pub rows: Vec<CacheStat>,
}

impl CacheStats {
    /// The table has a row for every category and one for the sums.
    pub open spec fn wf(self) -> bool {
        self.rows@.len() == CATEGORY_COUNT + 1
    }

    /// The table is the one derived from `snapshot`.
    pub open spec fn is_table_of(self, snapshot: CounterSnapshot) -> bool {
        &&& self.wf()
        &&& forall|c: Category| self.rows@[c.position()] == stat_of(#[trigger] snapshot.of(c))
        &&& self.rows@[CATEGORY_COUNT as int] == stat_of(snapshot.sums().as_counters())
    }

    /// Derives the table from a snapshot. The row of the sums is computed
    /// from the summed counters, not from the rows above it.
    pub fn from_snapshot(snapshot: &CounterSnapshot) -> (stats: CacheStats)
        requires
            snapshot.sums().fits(),
        ensures
            stats.is_table_of(*snapshot),
            stats.rows@ == stats_of(snapshot@),
    {
        proof {
            snapshot.lemma_tally();
        }
        let counters = snapshot.ordered();
        let rows = aggregate(&counters);
        proof {
            assert forall|c: Category| rows@[c.position()] == stat_of(#[trigger] snapshot.of(c)) by {
                assert(counters@[c.position()] == snapshot.of(c));
            }
        }
        CacheStats { rows }
    }

    /// The row of one category.
    pub fn category(&self, category: Category) -> (stat: CacheStat)
        requires
            self.wf(),
        ensures
            stat == self.rows@[category.position()],
    {
        self.rows[category.index()]
    }

    /// The row of the sums.
    pub fn total(&self) -> (stat: CacheStat)
        requires
            self.wf(),
        ensures
            stat == self.rows@[CATEGORY_COUNT as int],
    {
        self.rows[CATEGORY_COUNT]
    }
}

/// Two tables derived from the same snapshot have the same rows.
pub proof fn lemma_table_is_repeatable(snapshot: CounterSnapshot, first: CacheStats, second: CacheStats)
    requires
        first.is_table_of(snapshot),
        second.is_table_of(snapshot),
    ensures
        first.rows@ == second.rows@,
{
    assert forall|i: int| 0 <= i < first.rows@.len() implies first.rows@[i] == second.rows@[i] by {
        if i == 0 {
            assert(snapshot.of(Category::BlockHash) == snapshot.block_hash);
        } else if i == 1 {
            assert(snapshot.of(Category::CodeByHash) == snapshot.code_by_hash);
        } else if i == 2 {
            assert(snapshot.of(Category::LoadAccount) == snapshot.load_account);
        } else if i == 3 {
            assert(snapshot.of(Category::Storage) == snapshot.storage);
        }
    }
    assert(first.rows@ =~= second.rows@);
}

} // verus!
