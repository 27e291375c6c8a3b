//! Counting entity records in raw STEP bytes, without parsing.
//!
//! An entity name is a maximal run of `[A-Z0-9_]` that starts at an upper-case
//! letter; a run is counted when, after any ASCII whitespace, a `(` follows
//! it. The scan is byte-level, so it sees files in any 8-bit encoding, and it
//! counts both `#5=ADVANCED_FACE(...)` and the spaced `#5 = ADVANCED_FACE ( ... )`
//! form. A longer name is never also counted as its own suffix.

use vstd::prelude::*;
use crate::strings::bytes_eq;
use vstd::string::StringSliceAdditionalSpecFns;

verus! {

/// `A` to `Z`.
pub open spec fn is_upper(b: u8) -> bool {
    65 <= b <= 90
}

/// A byte that may continue an entity name: `A-Z`, `0-9` or `_`.
pub open spec fn is_ident(b: u8) -> bool {
    is_upper(b) || (48 <= b <= 57) || b == 95
}

/// ASCII whitespace: space, tab, line feed, form feed, carriage return.
pub open spec fn is_space(b: u8) -> bool {
    b == 32 || b == 9 || b == 10 || b == 12 || b == 13
}

/// Byte `i` belongs to a name run: it is a name byte, and it either starts
/// with an upper-case letter or continues the run of byte `i - 1`.
pub open spec fn in_run(bytes: Seq<u8>, i: int) -> bool
    decreases i + 1,
{
    if i < 0 || i >= bytes.len() {
        false
    } else {
        is_ident(bytes[i]) && (is_upper(bytes[i]) || in_run(bytes, i - 1))
    }
}

/// A name run starts at byte `i`.
pub open spec fn run_start(bytes: Seq<u8>, i: int) -> bool {
    0 <= i < bytes.len() && is_upper(bytes[i]) && !in_run(bytes, i - 1)
}

/// The first position at or after `j` that does not hold a name byte.
pub open spec fn run_end(bytes: Seq<u8>, j: int) -> int
    decreases bytes.len() - j,
{
    if 0 <= j < bytes.len() && is_ident(bytes[j]) {
        run_end(bytes, j + 1)
    } else {
        j
    }
}

/// The first position at or after `j` that does not hold whitespace.
pub open spec fn skip_space(bytes: Seq<u8>, j: int) -> int
    decreases bytes.len() - j,
{
    if 0 <= j < bytes.len() && is_space(bytes[j]) {
        skip_space(bytes, j + 1)
    } else {
        j
    }
}

/// A name run starts at byte `i` and is followed, after whitespace, by `(`.
pub open spec fn counted_at(bytes: Seq<u8>, i: int) -> bool {
    run_start(bytes, i) && {
        let next = skip_space(bytes, run_end(bytes, i));
        0 <= next < bytes.len() && bytes[next] == 40
    }
}

/// The name whose run starts at byte `i`.
pub open spec fn name_at(bytes: Seq<u8>, i: int) -> Seq<u8> {
    bytes.subrange(i, run_end(bytes, i))
}

/// The names counted at positions below `k`, in order.
pub open spec fn occurrences(bytes: Seq<u8>, k: int) -> Seq<Seq<u8>>
    decreases k,
{
    if k <= 0 {
        Seq::empty()
    } else if counted_at(bytes, k - 1) {
        occurrences(bytes, k - 1).push(name_at(bytes, k - 1))
    } else {
        occurrences(bytes, k - 1)
    }
}

/// How often `name` occurs in `names`.
pub open spec fn count_in(names: Seq<Seq<u8>>, name: Seq<u8>) -> nat
    decreases names.len(),
{
    if names.len() == 0 {
        0
    } else {
        count_in(names.drop_last(), name) + if names.last() == name {
            1nat
        } else {
            0nat
        }
    }
}

/// The number of occurrences of every entity name in `bytes`.
pub open spec fn entity_count(bytes: Seq<u8>, name: Seq<u8>) -> nat {
    count_in(occurrences(bytes, bytes.len() as int), name)
}

/// Occurrence counts per entity name.
pub struct EntityCounts {
    names: Vec<Vec<u8>>,
    counts: Vec<usize>,
}

/// The total count filed under `name` in parallel name and count lists.
pub open spec fn filed(names: Seq<Vec<u8>>, counts: Seq<usize>, name: Seq<u8>) -> nat
    decreases names.len(),
{
    if names.len() == 0 || counts.len() == 0 {
        0
    } else {
        filed(names.drop_last(), counts.drop_last(), name) + if names.last()@ == name {
            counts.last() as nat
        } else {
            0nat
        }
    }
}

proof fn lemma_filed_push(names: Seq<Vec<u8>>, counts: Seq<usize>, n: Vec<u8>, c: usize, name: Seq<u8>)
    requires
        names.len() == counts.len(),
    ensures
        filed(names.push(n), counts.push(c), name) == filed(names, counts, name) + if n@ == name {
            c as nat
        } else {
            0nat
        },
{
    assert(names.push(n).drop_last() =~= names);
    assert(counts.push(c).drop_last() =~= counts);
}

proof fn lemma_filed_update(names: Seq<Vec<u8>>, counts: Seq<usize>, j: int, c: usize, name: Seq<u8>)
    requires
        names.len() == counts.len(),
        0 <= j < names.len(),
    ensures
        filed(names, counts.update(j, c), name) + (if names[j]@ == name {
            counts[j] as nat
        } else {
            0nat
        }) == filed(names, counts, name) + if names[j]@ == name {
            c as nat
        } else {
            0nat
        },
    decreases names.len(),
{
    let updated = counts.update(j, c);
    if j == names.len() - 1 {
        assert(updated.drop_last() =~= counts.drop_last());
    } else {
        assert(updated.drop_last() =~= counts.drop_last().update(j, c));
        lemma_filed_update(names.drop_last(), counts.drop_last(), j, c, name);
    }
}

proof fn lemma_filed_absent(names: Seq<Vec<u8>>, counts: Seq<usize>, name: Seq<u8>)
    requires
        names.len() == counts.len(),
        forall|i: int| 0 <= i < names.len() ==> #[trigger] names[i]@ != name,
    ensures
        filed(names, counts, name) == 0,
    decreases names.len(),
{
    if names.len() > 0 {
        lemma_filed_absent(names.drop_last(), counts.drop_last(), name);
    }
}

proof fn lemma_filed_distinct(names: Seq<Vec<u8>>, counts: Seq<usize>, j: int)
    requires
        names.len() == counts.len(),
        0 <= j < names.len(),
        forall|a: int, b: int| 0 <= a < b < names.len() ==> names[a]@ != names[b]@,
    ensures
        filed(names, counts, names[j]@) == counts[j],
    decreases names.len(),
{
    if j == names.len() - 1 {
        lemma_filed_absent(names.drop_last(), counts.drop_last(), names[j]@);
    } else {
        lemma_filed_distinct(names.drop_last(), counts.drop_last(), j);
    }
}

impl EntityCounts {
    /// How often `name` was counted.
    pub closed spec fn count_of(self, name: Seq<u8>) -> nat {
        filed(self.names@, self.counts@, name)
    }

    /// Each name is filed once.
    pub closed spec fn wf(self) -> bool {
        &&& self.names@.len() == self.counts@.len()
        &&& forall|a: int, b: int|
            0 <= a < b < self.names@.len() ==> self.names@[a]@ != self.names@[b]@
    }

    fn empty() -> (counts: Self)
        ensures
            counts.wf(),
            forall|name: Seq<u8>| counts.count_of(name) == 0,
    {
        EntityCounts { names: Vec::new(), counts: Vec::new() }
    }

    /// The position of `name` among the filed names.
    fn position(&self, name: &[u8]) -> (found: Option<usize>)
        requires
            self.wf(),
        ensures
            found matches Some(j) ==> j < self.names@.len() && self.names@[j as int]@ == name@,
            found is None ==> forall|i: int| 0 <= i < self.names@.len() ==> #[trigger] self.names@[i]@ != name@,
    {
        let mut j: usize = 0;
        while j < self.names.len()
            invariant
                j <= self.names@.len(),
                forall|i: int| 0 <= i < j ==> #[trigger] self.names@[i]@ != name@,
            decreases self.names.len() - j,
        {
            if bytes_eq(self.names[j].as_slice(), name) {
                return Some(j);
            }
            j = j + 1;
        }
        None
    }

    /// Counts one more occurrence of `name`.
    fn record(&mut self, name: Vec<u8>)
        requires
            old(self).wf(),
            old(self).count_of(name@) < usize::MAX,
        ensures
            final(self).wf(),
            forall|n: Seq<u8>| #[trigger] final(self).count_of(n) == old(self).count_of(n) + if n == name@ {
                1nat
            } else {
                0nat
            },
    {
        match self.position(name.as_slice()) {
            Some(j) => {
                proof {
                    lemma_filed_distinct(self.names@, self.counts@, j as int);
                }
                let c = self.counts[j] + 1;
                let ghost before = self.counts@;
                self.counts.set(j, c);
                proof {
                    assert forall|n: Seq<u8>| #[trigger] filed(self.names@, self.counts@, n) == filed(self.names@, before, n) + if n == name@ {
                        1nat
                    } else {
                        0nat
                    } by {
                        lemma_filed_update(self.names@, before, j as int, c, n);
                    }
                }
            },
            None => {
                let ghost names0 = self.names@;
                let ghost counts0 = self.counts@;
                self.names.push(name);
                self.counts.push(1);
                proof {
                    assert forall|n: Seq<u8>| #[trigger] filed(self.names@, self.counts@, n) == filed(names0, counts0, n) + if n == name@ {
                        1nat
                    } else {
                        0nat
                    } by {
                        lemma_filed_push(names0, counts0, name, 1, n);
                    }
                }
            },
        }
    }

    /// How often the entity `name` was counted, or `None` when never.
    pub fn get(&self, name: &str) -> (count: Option<usize>)
        requires
            self.wf(),
        ensures
            count == (if self.count_of(name.spec_bytes()) > 0 {
                Some(self.count_of(name.spec_bytes()) as usize)
            } else {
                None
            }),
    {
        match self.position(name.as_bytes()) {
            Some(j) => {
                proof {
                    lemma_filed_distinct(self.names@, self.counts@, j as int);
                }
                if self.counts[j] > 0 {
                    Some(self.counts[j])
                } else {
                    None
                }
            },
            None => {
                proof {
                    lemma_filed_absent(self.names@, self.counts@, name.spec_bytes());
                }
                None
            },
        }
    }
}

proof fn lemma_count_in_bound(names: Seq<Seq<u8>>, name: Seq<u8>)
    ensures
        count_in(names, name) <= names.len(),
    decreases names.len(),
{
    if names.len() > 0 {
        lemma_count_in_bound(names.drop_last(), name);
    }
}

proof fn lemma_occurrences_bound(bytes: Seq<u8>, k: int)
    ensures
        occurrences(bytes, k).len() <= if k < 0 { 0 } else { k },
    decreases k,
{
    if k > 0 {
        lemma_occurrences_bound(bytes, k - 1);
    }
}

proof fn lemma_count_in_push(names: Seq<Seq<u8>>, extra: Seq<u8>, name: Seq<u8>)
    ensures
        count_in(names.push(extra), name) == count_in(names, name) + if extra == name {
            1nat
        } else {
            0nat
        },
{
    assert(names.push(extra).drop_last() =~= names);
}

fn is_upper_byte(b: u8) -> (r: bool)
    ensures
        r == is_upper(b),
{
    65 <= b && b <= 90
}

fn is_ident_byte(b: u8) -> (r: bool)
    ensures
        r == is_ident(b),
{
    (65 <= b && b <= 90) || (48 <= b && b <= 57) || b == 95
}

fn is_space_byte(b: u8) -> (r: bool)
    ensures
        r == is_space(b),
{
    b == 32 || b == 9 || b == 10 || b == 12 || b == 13
}

/// The bytes `bytes[start..end]`.
fn copy_range(bytes: &[u8], start: usize, end: usize) -> (part: Vec<u8>)
    requires
        start <= end <= bytes@.len(),
    ensures
        part@ == bytes@.subrange(start as int, end as int),
{
    let mut part: Vec<u8> = Vec::new();
    let mut k: usize = start;
    while k < end
        invariant
            start <= k <= end <= bytes@.len(),
            part@ == bytes@.subrange(start as int, k as int),
        decreases end - k,
    {
        part.push(bytes[k]);
        k = k + 1;
        assert(part@ =~= bytes@.subrange(start as int, k as int));
    }
    part
}

proof fn lemma_run_bytes(bytes: Seq<u8>, j: int, k: int)
    requires
        j <= k < run_end(bytes, j),
    ensures
        0 <= k < bytes.len() && is_ident(bytes[k]),
    decreases bytes.len() - j,
{
    if k > j {
        lemma_run_bytes(bytes, j + 1, k);
    }
}

proof fn lemma_run_is_in_run(bytes: Seq<u8>, i: int, k: int)
    requires
        run_start(bytes, i),
        i <= k < run_end(bytes, i),
    ensures
        in_run(bytes, k),
    decreases k - i,
{
    lemma_run_bytes(bytes, i, k);
    if k > i {
        lemma_run_is_in_run(bytes, i, k - 1);
    }
}

/// A counted name is counted once, as a whole: no position inside its run
/// starts a run of its own, so no suffix of a longer name is ever counted
/// (`DEGENERATE_TOROIDAL_SURFACE` never also counts as `TOROIDAL_SURFACE`).
pub proof fn law_no_suffix_is_counted(bytes: Seq<u8>, i: int, j: int)
    requires
        counted_at(bytes, i),
        i < j < run_end(bytes, i),
    ensures
        !run_start(bytes, j),
        !counted_at(bytes, j),
{
    lemma_run_is_in_run(bytes, i, j - 1);
}

proof fn lemma_in_run_from(bytes: Seq<u8>, j: int, m: int)
    requires
        0 <= j <= m < bytes.len(),
        is_upper(bytes[j]),
        forall|k: int| j <= k <= m ==> is_ident(#[trigger] bytes[k]),
    ensures
        in_run(bytes, m),
    decreases m - j,
{
    if m > j {
        lemma_in_run_from(bytes, j, m - 1);
    }
}

/// A counted name is a whole name: it starts with an upper-case letter, every
/// byte of it is `A-Z`, `0-9` or `_`, the byte after it is none of these, and
/// it is not the tail of a longer name, so a name with digits or underscores
/// (`AXIS2_PLACEMENT_3D`) is counted whole and never as a piece of it.
pub proof fn law_counted_names_are_whole(bytes: Seq<u8>, i: int)
    requires
        counted_at(bytes, i),
    ensures
        65 <= bytes[i] <= 90,
        forall|k: int| i <= k < run_end(bytes, i) ==> {
            let b = #[trigger] bytes[k];
            65 <= b <= 90 || 48 <= b <= 57 || b == 95
        },
        run_end(bytes, i) < bytes.len() ==> {
            let b = bytes[run_end(bytes, i)];
            !(65 <= b <= 90 || 48 <= b <= 57 || b == 95)
        },
        forall|j: int| 0 <= j < i && 65 <= #[trigger] bytes[j] <= 90 ==> exists|k: int| j <= k < i && {
            let b = #[trigger] bytes[k];
            !(65 <= b <= 90 || 48 <= b <= 57 || b == 95)
        },
{
    assert forall|k: int| i <= k < run_end(bytes, i) implies {
        let b = #[trigger] bytes[k];
        65 <= b <= 90 || 48 <= b <= 57 || b == 95
    } by {
        lemma_run_bytes(bytes, i, k);
    }
    assert forall|j: int| 0 <= j < i && 65 <= #[trigger] bytes[j] <= 90 implies exists|k: int| j <= k < i && {
        let b = #[trigger] bytes[k];
        !(65 <= b <= 90 || 48 <= b <= 57 || b == 95)
    } by {
        if forall|k: int| j <= k < i ==> is_ident(#[trigger] bytes[k]) {
            lemma_in_run_from(bytes, j, i - 1);
        }
    }
}

proof fn lemma_run_end_at(bytes: Seq<u8>, j: int, e: int)
    requires
        0 <= j <= e <= bytes.len(),
        forall|k: int| j <= k < e ==> is_ident(#[trigger] bytes[k]),
        e < bytes.len() ==> !is_ident(bytes[e]),
    ensures
        run_end(bytes, j) == e,
    decreases e - j,
{
    if j < e {
        lemma_run_end_at(bytes, j + 1, e);
    }
}

proof fn lemma_skip_space_at(bytes: Seq<u8>, j: int, e: int)
    requires
        0 <= j <= e < bytes.len(),
        forall|k: int| j <= k < e ==> is_space(#[trigger] bytes[k]),
        !is_space(bytes[e]),
    ensures
        skip_space(bytes, j) == e,
    decreases e - j,
{
    if j < e {
        lemma_skip_space_at(bytes, j + 1, e);
    }
}

proof fn lemma_in_run_origin(bytes: Seq<u8>, m: int)
    requires
        in_run(bytes, m),
    ensures
        exists|j: int| 0 <= j <= m && is_upper(#[trigger] bytes[j]) && forall|k: int| j <= k <= m ==> is_ident(#[trigger] bytes[k]),
    decreases m,
{
    if !is_upper(bytes[m]) {
        assert(in_run(bytes, m - 1));
        assert(m - 1 >= 0);
        lemma_in_run_origin(bytes, m - 1);
        let j = choose|j: int| 0 <= j <= m - 1 && is_upper(#[trigger] bytes[j]) && forall|k: int| j <= k <= m - 1 ==> is_ident(#[trigger] bytes[k]);
        assert(forall|k: int| j <= k <= m ==> is_ident(#[trigger] bytes[k]));
    } else {
        assert(forall|k: int| m <= k <= m ==> is_ident(#[trigger] bytes[k]));
    }
}

/// Every whole name followed, across ASCII whitespace (space, tab, line
/// feed, form feed, carriage return), by `(` is counted, as exactly that
/// name: an upper-case letter, then `A-Z`, `0-9` or `_` up to a byte that is
/// none of these, where the name is not the tail of a longer one.
pub proof fn law_whole_names_before_a_parenthesis_are_counted(bytes: Seq<u8>, i: int, e: int, p: int)
    requires
        0 <= i < e <= p < bytes.len(),
        65 <= bytes[i] <= 90,
        forall|k: int| i <= k < e ==> {
            let b = #[trigger] bytes[k];
            65 <= b <= 90 || 48 <= b <= 57 || b == 95
        },
        !(65 <= bytes[e] <= 90 || 48 <= bytes[e] <= 57 || bytes[e] == 95),
        forall|k: int| e <= k < p ==> {
            let b = #[trigger] bytes[k];
            b == 32 || b == 9 || b == 10 || b == 12 || b == 13
        },
        bytes[p] == 40,
        forall|j: int| 0 <= j < i && 65 <= #[trigger] bytes[j] <= 90 ==> exists|k: int| j <= k < i && {
            let b = #[trigger] bytes[k];
            !(65 <= b <= 90 || 48 <= b <= 57 || b == 95)
        },
    ensures
        counted_at(bytes, i),
        name_at(bytes, i) == bytes.subrange(i, e),
{
    assert forall|k: int| i <= k < e implies is_ident(#[trigger] bytes[k]) by {
        let b = bytes[k];
        assert(65 <= b <= 90 || 48 <= b <= 57 || b == 95);
    }
    lemma_run_end_at(bytes, i, e);
    assert forall|k: int| e <= k < p implies is_space(#[trigger] bytes[k]) by {
        let b = bytes[k];
        assert(b == 32 || b == 9 || b == 10 || b == 12 || b == 13);
    }
    lemma_skip_space_at(bytes, e, p);
    if i > 0 && in_run(bytes, i - 1) {
        lemma_in_run_origin(bytes, i - 1);
        let j = choose|j: int| 0 <= j <= i - 1 && is_upper(#[trigger] bytes[j]) && forall|k: int| j <= k <= i - 1 ==> is_ident(#[trigger] bytes[k]);
        assert(65 <= bytes[j] <= 90);
        let k = choose|k: int| j <= k < i && {
            let b = #[trigger] bytes[k];
            !(65 <= b <= 90 || 48 <= b <= 57 || b == 95)
        };
        assert(is_ident(bytes[k]));
    }
    assert(run_start(bytes, i));
}

/// One pass over the raw bytes counting every entity name that is followed,
/// across any whitespace, by `(`. This is an occurrence count, not a count of
/// lines with a match.
pub fn raw_entity_counts(bytes: &[u8]) -> (counts: EntityCounts)
    ensures
        counts.wf(),
        forall|name: Seq<u8>| #[trigger] counts.count_of(name) == entity_count(bytes@, name),
{
    let ghost b = bytes@;
    let mut counts = EntityCounts::empty();
    let mut i: usize = 0;
    while i < bytes.len()
        invariant
            b == bytes@,
            i <= b.len(),
            counts.wf(),
            forall|name: Seq<u8>| #[trigger] counts.count_of(name) == count_in(occurrences(b, i as int), name),
            0 < i < b.len() ==> !in_run(b, i - 1) || !is_ident(b[i as int]),
        decreases b.len() - i,
    {
        if is_upper_byte(bytes[i]) {
            let start = i;
            assert(run_start(b, start as int));
            i = i + 1;
            assert(in_run(b, start as int));
            while i < bytes.len() && is_ident_byte(bytes[i])
                invariant
                    b == bytes@,
                    start < i <= b.len(),
                    in_run(b, i - 1),
                    run_end(b, start as int) == run_end(b, i as int),
                    occurrences(b, i as int) == occurrences(b, start + 1),
                decreases b.len() - i,
            {
                assert(!run_start(b, i as int));
                assert(in_run(b, i as int));
                i = i + 1;
            }
            let end = i;
            assert(run_end(b, end as int) == end);
            while i < bytes.len() && is_space_byte(bytes[i])
                invariant
                    b == bytes@,
                    end <= i <= b.len(),
                    skip_space(b, end as int) == skip_space(b, i as int),
                    run_end(b, start as int) == end,
                    occurrences(b, i as int) == occurrences(b, start + 1),
                    i > end ==> is_space(b[i - 1]),
                    end < b.len() ==> !is_ident(b[end as int]),
                decreases b.len() - i,
            {
                assert(!run_start(b, i as int));
                i = i + 1;
            }
            assert(skip_space(b, i as int) == i);
            assert(0 < i < b.len() ==> !in_run(b, i - 1) || !is_ident(b[i as int])) by {
                if i > end {
                    assert(!is_ident(b[i - 1]));
                }
            }
            if i < bytes.len() && bytes[i] == 40u8 {
                let name = copy_range(bytes, start, end);
                proof {
                    assert(counted_at(b, start as int));
                    lemma_count_in_bound(occurrences(b, start as int), name@);
                    lemma_occurrences_bound(b, start as int);
                    lemma_count_in_push(occurrences(b, start as int), name@, name@);
                }
                counts.record(name);
                proof {
                    assert forall|n: Seq<u8>| #[trigger] counts.count_of(n) == count_in(occurrences(b, i as int), n) by {
                        lemma_count_in_push(occurrences(b, start as int), name_at(b, start as int), n);
                    }
                }
            } else {
                assert(!counted_at(b, start as int));
            }
        } else {
            assert(!run_start(b, i as int));
            assert(!in_run(b, i - 1) || !is_ident(b[i as int])) by {
                if i == 0 {
                    assert(!in_run(b, -1));
                }
            }
            assert(!in_run(b, i as int));
            i = i + 1;
        }
    }
    counts
}

} // verus!
