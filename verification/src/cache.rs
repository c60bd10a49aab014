use crate::clock::unix_now;
use crate::converter::Converter;
use vstd::prelude::*;
use vstd::string::StringExecFns;

verus! {

/// A rate together with the second at which it was recorded.
#[derive(Debug, PartialEq, Clone, Copy)]
pub struct RateEntry<R> {
    pub rate: R,
    pub last_updated_at: u64,
}

impl<R: Copy> RateEntry<R> {
    pub fn new(rate: R, last_updated_at: u64) -> (entry: Self)
        ensures
            entry.rate == rate,
            entry.last_updated_at == last_updated_at,
    {
        RateEntry { rate, last_updated_at }
    }

    /// The entry's age at `now` is strictly below `duration` seconds. An
    /// entry stamped later than `now` has no age and is never fresh.
    pub open spec fn fresh_at(self, now: u64, duration: u64) -> bool {
        self.last_updated_at <= now && now - self.last_updated_at < duration
    }

    /// Freshness against a clock reading that the caller supplies.
    pub fn is_valid_at(&self, now: u64, duration: u64) -> (valid: bool)
        ensures
            valid == self.fresh_at(now, duration),
    {
        self.last_updated_at <= now && now - self.last_updated_at < duration
    }

    /// Freshness against the wall clock.
    pub fn is_valid(&self, duration: u64) -> (valid: bool)
        ensures
            exists|now: u64| valid == #[trigger] self.fresh_at(now, duration),
            duration == 0 ==> !valid,
    {
        let now = unix_now();
        self.is_valid_at(now, duration)
    }
}

/// The key of a rate: the base currency's code and the target's.
pub type PairKey = (Seq<char>, Seq<char>);

/// One stored rate with the pair it belongs to.
#[derive(Debug, PartialEq, Clone)]
pub struct StoredRate<R> {
    pub base: String,
    pub target: String,
    pub entry: RateEntry<R>,
}

impl<R: Copy> StoredRate<R> {
    pub open spec fn key(self) -> PairKey {
        (self.base@, self.target@)
    }
}

/// No two rows of `rows` belong to the same pair.
pub open spec fn distinct_pairs<R: Copy>(rows: Seq<StoredRate<R>>) -> bool {
    forall|i: int, j: int|
        0 <= i < j < rows.len() ==> (#[trigger] rows[i]).key() != (#[trigger] rows[j]).key()
}

/// Some row of `rows` belongs to `key`.
pub open spec fn has_pair<R: Copy>(rows: Seq<StoredRate<R>>, key: PairKey) -> bool {
    exists|i: int| 0 <= i < rows.len() && (#[trigger] rows[i]).key() == key
}

/// The position of a row of `rows` that belongs to `key`.
pub open spec fn pair_index<R: Copy>(rows: Seq<StoredRate<R>>, key: PairKey) -> int {
    choose|i: int| 0 <= i < rows.len() && (#[trigger] rows[i]).key() == key
}

/// The mapping that `rows` spell out, pair by pair.
pub open spec fn rows_map<R: Copy>(rows: Seq<StoredRate<R>>) -> Map<PairKey, RateEntry<R>> {
    Map::new(|key: PairKey| has_pair(rows, key), |key: PairKey| rows[pair_index(rows, key)].entry)
}

/// The rate that a lookup of `(base, target)` in `rates` yields at `now`: that
/// of the pair's entry, if there is one and it is fresh.
pub open spec fn fresh_rate<R: Copy>(
    rates: Map<PairKey, RateEntry<R>>,
    base: Seq<char>,
    target: Seq<char>,
    now: u64,
    duration: u64,
) -> Option<R> {
    if rates.contains_key((base, target)) && rates[(base, target)].fresh_at(now, duration) {
        Some(rates[(base, target)].rate)
    } else {
        None
    }
}

/// `rates` after `rate` has been recorded for `(base, target)` at `now`.
pub open spec fn with_rate<R: Copy>(
    rates: Map<PairKey, RateEntry<R>>,
    base: Seq<char>,
    target: Seq<char>,
    rate: R,
    now: u64,
) -> Map<PairKey, RateEntry<R>> {
    rates.insert((base, target), RateEntry { rate, last_updated_at: now })
}

/// With distinct pairs, the row at position `i` is the one that the mapping
/// holds for its pair.
proof fn lemma_row_is_mapped<R: Copy>(rows: Seq<StoredRate<R>>, i: int)
    requires
        distinct_pairs(rows),
        0 <= i < rows.len(),
    ensures
        rows_map(rows).contains_key(rows[i].key()),
        rows_map(rows)[rows[i].key()] == rows[i].entry,
{
    let key = rows[i].key();
    assert(has_pair(rows, key));
    let j = pair_index(rows, key);
    assert(0 <= j < rows.len() && rows[j].key() == key);
    if j < i {
        assert(rows[j].key() != rows[i].key());
    } else if i < j {
        assert(rows[i].key() != rows[j].key());
    }
}

/// Replacing the row of a pair records the new entry for that pair and
/// leaves every other pair as it was.
proof fn lemma_replace_row<R: Copy>(rows: Seq<StoredRate<R>>, i: int, row: StoredRate<R>)
    requires
        distinct_pairs(rows),
        0 <= i < rows.len(),
        row.key() == rows[i].key(),
    ensures
        distinct_pairs(rows.update(i, row)),
        rows_map(rows.update(i, row)) == rows_map(rows).insert(row.key(), row.entry),
{
    let after = rows.update(i, row);
    assert forall|a: int, b: int| 0 <= a < b < after.len() implies (#[trigger] after[a]).key() != (
    #[trigger] after[b]).key() by {
        assert(after[a].key() == rows[a].key());
        assert(after[b].key() == rows[b].key());
        assert(rows[a].key() != rows[b].key());
    }
    let expected = rows_map(rows).insert(row.key(), row.entry);
    assert forall|key: PairKey| rows_map(after).contains_key(key) <==> expected.contains_key(
        key,
    ) by {
        if has_pair(after, key) {
            let j = pair_index(after, key);
            assert(rows[j].key() == after[j].key());
            assert(has_pair(rows, key));
        }
        if has_pair(rows, key) {
            let j = pair_index(rows, key);
            assert(after[j].key() == rows[j].key());
            assert(has_pair(after, key));
        }
        if key == row.key() {
            assert(after[i].key() == key);
            assert(has_pair(after, key));
        }
    }
    assert forall|key: PairKey| rows_map(after).contains_key(key) implies rows_map(after)[key]
        == expected[key] by {
        let j = pair_index(after, key);
        assert(0 <= j < after.len() && after[j].key() == key);
        lemma_row_is_mapped(after, j);
        if j == i {
        } else {
            assert(after[j] == rows[j]);
            lemma_row_is_mapped(rows, j);
        }
    }
    assert(rows_map(after) =~= expected);
}

/// Appending a row for a pair that has none records its entry for that pair
/// and leaves every other pair as it was.
proof fn lemma_append_row<R: Copy>(rows: Seq<StoredRate<R>>, row: StoredRate<R>)
    requires
        distinct_pairs(rows),
        !has_pair(rows, row.key()),
    ensures
        distinct_pairs(rows.push(row)),
        rows_map(rows.push(row)) == rows_map(rows).insert(row.key(), row.entry),
{
    let after = rows.push(row);
    let last = rows.len() as int;
    assert forall|a: int, b: int| 0 <= a < b < after.len() implies (#[trigger] after[a]).key() != (
    #[trigger] after[b]).key() by {
        assert(after[a] == rows[a]);
        if b < last {
            assert(after[b] == rows[b]);
            assert(rows[a].key() != rows[b].key());
        } else {
            assert(after[b] == row);
            if rows[a].key() == row.key() {
                assert(has_pair(rows, row.key()));
            }
        }
    }
    let expected = rows_map(rows).insert(row.key(), row.entry);
    assert forall|key: PairKey| rows_map(after).contains_key(key) <==> expected.contains_key(
        key,
    ) by {
        if has_pair(after, key) {
            let j = pair_index(after, key);
            if j < last {
                assert(rows[j].key() == after[j].key());
                assert(has_pair(rows, key));
            }
        }
        if has_pair(rows, key) {
            let j = pair_index(rows, key);
            assert(after[j].key() == rows[j].key());
            assert(has_pair(after, key));
        }
        if key == row.key() {
            assert(after[last].key() == key);
            assert(has_pair(after, key));
        }
    }
    assert forall|key: PairKey| rows_map(after).contains_key(key) implies rows_map(after)[key]
        == expected[key] by {
        let j = pair_index(after, key);
        assert(0 <= j < after.len() && after[j].key() == key);
        lemma_row_is_mapped(after, j);
        if j == last {
        } else {
            assert(after[j] == rows[j]);
            lemma_row_is_mapped(rows, j);
        }
    }
    assert(rows_map(after) =~= expected);
}

/// The mapping that results from recording `rows` one after another, a later
/// row replacing an earlier one of the same pair.
pub open spec fn rows_recorded<R: Copy>(rows: Seq<StoredRate<R>>) -> Map<PairKey, RateEntry<R>>
    decreases rows.len(),
{
    if rows.len() == 0 {
        Map::empty()
    } else {
        rows_recorded(rows.drop_last()).insert(rows.last().key(), rows.last().entry)
    }
}

/// Two lists that agree row by row on pair and entry spell out the same
/// mapping.
proof fn lemma_same_rows_same_map<R: Copy>(left: Seq<StoredRate<R>>, right: Seq<StoredRate<R>>)
    requires
        distinct_pairs(left),
        left.len() == right.len(),
        forall|i: int|
            0 <= i < left.len() ==> (#[trigger] right[i]).key() == left[i].key() && right[i].entry
                == left[i].entry,
    ensures
        distinct_pairs(right),
        rows_map(right) == rows_map(left),
{
    assert forall|a: int, b: int| 0 <= a < b < right.len() implies (#[trigger] right[a]).key() != (
    #[trigger] right[b]).key() by {
        assert(left[a].key() != left[b].key());
    }
    assert forall|key: PairKey| rows_map(right).contains_key(key) <==> rows_map(left).contains_key(
        key,
    ) by {
        if has_pair(right, key) {
            let j = pair_index(right, key);
            assert(left[j].key() == key);
            assert(has_pair(left, key));
        }
        if has_pair(left, key) {
            let j = pair_index(left, key);
            assert(right[j].key() == key);
            assert(has_pair(right, key));
        }
    }
    assert forall|key: PairKey| rows_map(right).contains_key(key) implies rows_map(right)[key]
        == rows_map(left)[key] by {
        let j = pair_index(right, key);
        assert(0 <= j < right.len() && right[j].key() == key);
        lemma_row_is_mapped(right, j);
        lemma_row_is_mapped(left, j);
    }
    assert(rows_map(right) =~= rows_map(left));
}

/// A rate that has just been recorded is served by a lookup in the same
/// second, whatever positive age the lookup allows.
pub proof fn lemma_set_then_get<R: Copy>(
    rates: Map<PairKey, RateEntry<R>>,
    base: Seq<char>,
    target: Seq<char>,
    rate: R,
    now: u64,
    duration: u64,
)
    requires
        duration > 0,
    ensures
        fresh_rate(with_rate(rates, base, target, rate, now), base, target, now, duration) == Some(
            rate,
        ),
{
}

/// A rate recorded at `stamped_at`, no later than `now`, is served at `now`
/// exactly when its age `now - stamped_at` is strictly below the allowed age:
/// at the boundary it is already stale.
pub proof fn lemma_served_iff_younger<R: Copy>(
    rates: Map<PairKey, RateEntry<R>>,
    base: Seq<char>,
    target: Seq<char>,
    rate: R,
    stamped_at: u64,
    now: u64,
    duration: u64,
)
    requires
        stamped_at <= now,
    ensures
        now - stamped_at < duration ==> fresh_rate(
            with_rate(rates, base, target, rate, stamped_at),
            base,
            target,
            now,
            duration,
        ) == Some(rate),
        now - stamped_at >= duration ==> fresh_rate(
            with_rate(rates, base, target, rate, stamped_at),
            base,
            target,
            now,
            duration,
        ) is None,
{
}

/// A pair that the store does not hold is never served, whatever age the
/// lookup allows.
pub proof fn lemma_absent_pair_is_missed<R: Copy>(
    rates: Map<PairKey, RateEntry<R>>,
    base: Seq<char>,
    target: Seq<char>,
    now: u64,
    duration: u64,
)
    requires
        !rates.contains_key((base, target)),
    ensures
        fresh_rate(rates, base, target, now, duration) is None,
{
}

/// Recording a second rate for a pair leaves the store as if the first had
/// never been recorded: a lookup of the pair can only serve the second rate.
pub proof fn lemma_second_set_replaces<R: Copy>(
    rates: Map<PairKey, RateEntry<R>>,
    base: Seq<char>,
    target: Seq<char>,
    first: R,
    first_at: u64,
    second: R,
    second_at: u64,
    now: u64,
    duration: u64,
)
    ensures
        with_rate(with_rate(rates, base, target, first, first_at), base, target, second, second_at)
            == with_rate(rates, base, target, second, second_at),
        fresh_rate(
            with_rate(
                with_rate(rates, base, target, first, first_at),
                base,
                target,
                second,
                second_at,
            ),
            base,
            target,
            now,
            duration,
        ) == if second_at <= now && now - second_at < duration {
            Some(second)
        } else {
            None
        },
{
    assert(with_rate(
        with_rate(rates, base, target, first, first_at),
        base,
        target,
        second,
        second_at,
    ) =~= with_rate(rates, base, target, second, second_at));
}

/// Recording a rate for one pair changes what no other pair serves.
pub proof fn lemma_set_keeps_other_pairs<R: Copy>(
    rates: Map<PairKey, RateEntry<R>>,
    base: Seq<char>,
    target: Seq<char>,
    rate: R,
    stamped_at: u64,
    other_base: Seq<char>,
    other_target: Seq<char>,
    now: u64,
    duration: u64,
)
    requires
        (other_base, other_target) != (base, target),
    ensures
        fresh_rate(
            with_rate(rates, base, target, rate, stamped_at),
            other_base,
            other_target,
            now,
            duration,
        ) == fresh_rate(rates, other_base, other_target, now, duration),
{
}

/// Recording the rows of a list with distinct pairs, in any store that starts
/// empty, yields the mapping that the list spells out: what a store hands out
/// as its rows rebuilds the same store, stamps included.
pub proof fn lemma_recorded_rows_rebuild<R: Copy>(rows: Seq<StoredRate<R>>)
    requires
        distinct_pairs(rows),
    ensures
        rows_recorded(rows) == rows_map(rows),
    decreases rows.len(),
{
    if rows.len() == 0 {
        assert(rows_map(rows) =~= Map::<PairKey, RateEntry<R>>::empty());
    } else {
        let front = rows.drop_last();
        assert forall|a: int, b: int| 0 <= a < b < front.len() implies (#[trigger] front[a]).key()
            != (#[trigger] front[b]).key() by {
            assert(front[a] == rows[a]);
            assert(front[b] == rows[b]);
            assert(rows[a].key() != rows[b].key());
        }
        lemma_recorded_rows_rebuild(front);
        if has_pair(front, rows.last().key()) {
            let j = pair_index(front, rows.last().key());
            assert(front[j] == rows[j]);
            assert(rows[j].key() != rows[rows.len() - 1].key());
        }
        lemma_append_row(front, rows.last());
        assert(front.push(rows.last()) =~= rows);
    }
}

/// A store of exchange rates, at most one per currency pair, each stamped
/// with the second it was recorded. Staleness is judged when a rate is read;
/// nothing is ever evicted.
#[derive(Debug)]
pub struct Cache<R: Copy> {
    contents: Vec<StoredRate<R>>,
}

impl<R: Copy> View for Cache<R> {
    type V = Map<PairKey, RateEntry<R>>;

    closed spec fn view(&self) -> Self::V {
        rows_map(self.contents@)
    }
}

impl<R: Copy> Cache<R> {
    #[verifier::type_invariant]
    spec fn well_formed(self) -> bool {
        distinct_pairs(self.contents@)
    }

    /// An empty store.
    pub fn new() -> (cache: Self)
        ensures
            cache@ == Map::<PairKey, RateEntry<R>>::empty(),
    {
        let cache = Cache { contents: Vec::new() };
        assert(cache@ =~= Map::<PairKey, RateEntry<R>>::empty());
        cache
    }

    /// The position of the row for `(base, target)`, if the store has one.
    fn find(&self, base: &str, target: &str) -> (found: Option<usize>)
        ensures
            match found {
                Some(i) => i < self.contents@.len() && self.contents@[i as int].key() == (
                    base@,
                    target@,
                ),
                None => !has_pair(self.contents@, (base@, target@)),
            },
    {
        let wanted_base = String::from_str(base);
        let wanted_target = String::from_str(target);
        let mut i: usize = 0;
        while i < self.contents.len()
            invariant
                i <= self.contents@.len(),
                wanted_base@ == base@,
                wanted_target@ == target@,
                forall|j: int| 0 <= j < i ==> (#[trigger] self.contents@[j]).key() != (base@, target@),
            decreases self.contents@.len() - i,
        {
            if self.contents[i].base == wanted_base && self.contents[i].target == wanted_target {
                return Some(i);
            }
            i += 1;
        }
        None
    }

    /// Looks `(base, target)` up against a clock reading that the caller
    /// supplies. A stale entry and a missing one both give `None`.
    pub fn get_at(&self, base: &str, target: &str, duration: u64, now: u64) -> (found: Option<
        Converter<R>,
    >)
        ensures
            match found {
                Some(converter) => converter.base@ == base@ && converter.target@ == target@
                    && fresh_rate(self@, base@, target@, now, duration) == Some(converter.rate),
                None => fresh_rate(self@, base@, target@, now, duration) is None,
            },
    {
        proof {
            use_type_invariant(self);
        }
        match self.find(base, target) {
            Some(i) => {
                let row = &self.contents[i];
                proof {
                    lemma_row_is_mapped(self.contents@, i as int);
                }
                if row.entry.is_valid_at(now, duration) {
                    Some(Converter::new(String::from_str(base), String::from_str(target), row.entry.rate))
                } else {
                    None
                }
            },
            None => None,
        }
    }

    /// Looks `(base, target)` up against the wall clock.
    pub fn get(&self, base: &str, target: &str, duration: u64) -> (found: Option<Converter<R>>)
        ensures
            exists|now: u64|
                match found {
                    Some(converter) => converter.base@ == base@ && converter.target@ == target@
                        && #[trigger] fresh_rate(self@, base@, target@, now, duration) == Some(
                        converter.rate,
                    ),
                    None => fresh_rate(self@, base@, target@, now, duration) is None,
                },
            !self@.contains_key((base@, target@)) || duration == 0 ==> found is None,
    {
        let now = unix_now();
        self.get_at(base, target, duration, now)
    }

    /// Records the converter's rate for its pair as of `now`, in place of
    /// whatever the pair had before. No other pair changes.
    pub fn set_at(&mut self, converter: &Converter<R>, now: u64)
        ensures
            final(self)@ == with_rate(
                old(self)@,
                converter.base@,
                converter.target@,
                converter.rate,
                now,
            ),
    {
        proof {
            use_type_invariant(&*self);
        }
        let row = StoredRate {
            base: converter.base.clone(),
            target: converter.target.clone(),
            entry: RateEntry::new(converter.rate, now),
        };
        let found = self.find(converter.base.as_str(), converter.target.as_str());
        // The rows are edited outside the store and put back whole, so that
        // the store is well formed at every step.
        let mut rows: Vec<StoredRate<R>> = Vec::new();
        core::mem::swap(&mut self.contents, &mut rows);
        match found {
            Some(i) => {
                proof {
                    lemma_replace_row(rows@, i as int, row);
                }
                rows.set(i, row);
            },
            None => {
                proof {
                    lemma_append_row(rows@, row);
                }
                rows.push(row);
            },
        }
        self.contents = rows;
    }

    /// The stored rates, one row per pair, in no particular order.
    pub fn entries(&self) -> (rows: Vec<StoredRate<R>>)
        ensures
            distinct_pairs(rows@),
            rows_map(rows@) == self@,
    {
        proof {
            use_type_invariant(self);
        }
        let mut rows: Vec<StoredRate<R>> = Vec::new();
        let mut i: usize = 0;
        while i < self.contents.len()
            invariant
                i <= self.contents@.len(),
                rows@.len() == i,
                forall|j: int|
                    0 <= j < i ==> (#[trigger] rows@[j]).key() == self.contents@[j].key()
                        && rows@[j].entry == self.contents@[j].entry,
            decreases self.contents@.len() - i,
        {
            let row = &self.contents[i];
            rows.push(
                StoredRate { base: row.base.clone(), target: row.target.clone(), entry: row.entry },
            );
            i += 1;
        }
        proof {
            lemma_same_rows_same_map(self.contents@, rows@);
        }
        rows
    }

    /// A store that holds `rows`, recorded one after another with the stamps
    /// they carry.
    pub fn from_entries(rows: &Vec<StoredRate<R>>) -> (cache: Self)
        ensures
            cache@ == rows_recorded(rows@),
    {
        let mut cache = Cache::new();
        let mut i: usize = 0;
        while i < rows.len()
            invariant
                i <= rows@.len(),
                cache@ == rows_recorded(rows@.take(i as int)),
            decreases rows@.len() - i,
        {
            let row = &rows[i];
            let converter = Converter::new(row.base.clone(), row.target.clone(), row.entry.rate);
            cache.set_at(&converter, row.entry.last_updated_at);
            proof {
                let done = rows@.take(i as int + 1);
                assert(done.drop_last() =~= rows@.take(i as int));
                assert(done.last() == rows@[i as int]);
            }
            i += 1;
        }
        assert(rows@.take(rows@.len() as int) =~= rows@);
        cache
    }

    /// The store to start from, given what could be read of an earlier run:
    /// the rows that were read, or an empty store where reading failed.
    pub fn restore(loaded: Option<Vec<StoredRate<R>>>) -> (cache: Self)
        ensures
            cache@ == match loaded {
                Some(rows) => rows_recorded(rows@),
                None => Map::<PairKey, RateEntry<R>>::empty(),
            },
    {
        match loaded {
            Some(rows) => Cache::from_entries(&rows),
            None => Cache::new(),
        }
    }

    /// Records the converter's rate for its pair as of the wall clock's
    /// present reading.
    pub fn set(&mut self, converter: &Converter<R>)
        ensures
            exists|now: u64|
                final(self)@ == #[trigger] with_rate(
                    old(self)@,
                    converter.base@,
                    converter.target@,
                    converter.rate,
                    now,
                ),
    {
        let now = unix_now();
        self.set_at(converter, now);
    }
}

} // verus!
