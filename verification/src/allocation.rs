//! The allocation table: a durable mapping from subscriber identity to the
//! default number assigned the first time the identity was seen.
//!
//! The table is loaded once from persisted records and afterwards only ever
//! grows its watermark: a fresh allocation hands out `high_watermark + 1`,
//! stays below a fixed ceiling, and produces the exact storage line that the
//! caller must append durably before the number is used. Numbers are never
//! reused, within a run or across runs.

use crate::text::dec_digits;
use crate::text::push_decimal;
use crate::text::str_eq;
use vstd::prelude::*;
use vstd::string::StringExecFns;

verus! {

/// Lowest value the watermark ever takes: the first allocation is
/// strictly above it.
pub const ALLOCATION_FLOOR: u64 = 90400000;

/// Fixed exclusive upper bound of the number space; reaching it is an
/// invariant breach that aborts the run.
pub const ALLOCATION_CEILING: u64 = 90500000;

/// One persisted assignment: an identity and the number it was given.
pub struct Entry {
    pub identity: String,
    pub number: u64,
}

/// The identity-to-number mapping held by a sequence of records, later
/// records overriding earlier ones.
pub open spec fn entries_map(s: Seq<Entry>) -> Map<Seq<char>, u64>
    decreases s.len(),
{
    if s.len() == 0 {
        Map::empty()
    } else {
        entries_map(s.drop_last()).insert(s.last().identity@, s.last().number)
    }
}

/// The storage line recording one assignment: `identity,number` and a
/// newline.
pub open spec fn record_line(id: Seq<char>, n: u64) -> Seq<char> {
    id + ","@ + dec_digits(n as nat) + "\n"@
}

/// The outcome of a successful get-or-allocate: the number to use, whether
/// it is fresh, and, for a fresh number, the storage line that must be
/// appended durably before the number counts as assigned.
pub struct Allocation {
    pub number: u64,
    pub is_new: bool,
    pub append: Option<String>,
}

/// The one unrecoverable allocation fault: the number space is exhausted.
#[derive(Debug)]
pub enum AllocationError {
    CeilingExceeded,
}

/// The in-memory allocation table with its running watermark.
pub struct AllocationTable {
    pub entries: Vec<Entry>,
    pub high_watermark: u64,
}

/// One fresh allocation step between two table states: the number handed
/// out is the successor of the old watermark, becomes the new watermark,
/// and the loaded records are untouched.
pub open spec fn allocates(pre: AllocationTable, post: AllocationTable, n: u64) -> bool {
    &&& n == pre.high_watermark + 1
    &&& post.high_watermark == n
    &&& post.entries == pre.entries
}

proof fn lemma_entries_map_push(s: Seq<Entry>, e: Entry)
    ensures
        entries_map(s.push(e)) == entries_map(s).insert(e.identity@, e.number),
{
    assert(s.push(e).drop_last() =~= s);
}

proof fn lemma_entries_map_bound(s: Seq<Entry>, b: u64)
    requires
        forall|i: int| 0 <= i < s.len() ==> s[i].number <= b,
    ensures
        forall|k: Seq<char>|
            entries_map(s).contains_key(k) ==> entries_map(s)[k] <= b,
    decreases s.len(),
{
    if s.len() > 0 {
        assert(forall|i: int|
            0 <= i < s.drop_last().len() ==> s.drop_last()[i].number <= b);
        lemma_entries_map_bound(s.drop_last(), b);
        assert(s.last().number <= b);
        assert(forall|k: Seq<char>|
            entries_map(s).contains_key(k) && k != s.last().identity@
                ==> entries_map(s)[k] == entries_map(s.drop_last())[k]);
    }
}

proof fn lemma_take_push(s: Seq<Entry>, i: int)
    requires
        0 <= i < s.len(),
    ensures
        s.take(i + 1) =~= s.take(i).push(s[i]),
{
}

impl AllocationTable {
    /// The mapping the table currently holds.
    pub open spec fn as_map(self) -> Map<Seq<char>, u64> {
        entries_map(self.entries@)
    }

    /// Well-formedness: the watermark never falls below the floor and
    /// dominates every recorded number.
    pub open spec fn wf(self) -> bool {
        &&& self.high_watermark >= ALLOCATION_FLOOR
        &&& forall|i: int|
            0 <= i < self.entries@.len() ==> self.entries@[i].number <= self.high_watermark
    }

    /// An empty table, as loading an empty storage file yields it.
    pub fn new() -> (t: AllocationTable)
        ensures
            t.wf(),
            t.as_map() == Map::<Seq<char>, u64>::empty(),
            t.high_watermark == ALLOCATION_FLOOR,
    {
        AllocationTable { entries: Vec::new(), high_watermark: ALLOCATION_FLOOR }
    }

    /// Takes one persisted record into the table, a later record for the
    /// same identity overriding an earlier one, and raises the watermark
    /// to the recorded number where it exceeds it.
    pub fn load_record(&mut self, identity: String, number: u64)
        requires
            old(self).wf(),
        ensures
            final(self).wf(),
            final(self).as_map() == old(self).as_map().insert(identity@, number),
            final(self).high_watermark == if number > old(self).high_watermark {
                number
            } else {
                old(self).high_watermark
            },
    {
        let ghost pre = self.entries@;
        let ghost id_view = identity@;
        if number > self.high_watermark {
            self.high_watermark = number;
        }
        self.entries.push(Entry { identity, number });
        proof {
            lemma_entries_map_push(pre, self.entries@.last());
            assert(self.entries@.last().identity@ == id_view);
            assert(self.entries@.drop_last() =~= pre);
        }
    }

    /// The number recorded for `identity`, if any.
    pub fn lookup(&self, identity: &str) -> (r: Option<u64>)
        ensures
            r == if self.as_map().contains_key(identity@) {
                Some(self.as_map()[identity@])
            } else {
                None::<u64>
            },
    {
        let ghost s = self.entries@;
        let ghost k = identity@;
        let mut i: usize = self.entries.len();
        proof {
            assert(s.take(i as int) =~= s);
        }
        while i > 0
            invariant
                i <= s.len(),
                s == self.entries@,
                k == identity@,
                entries_map(s).contains_key(k) == entries_map(s.take(i as int)).contains_key(k),
                entries_map(s).contains_key(k) ==> entries_map(s)[k] == entries_map(
                    s.take(i as int),
                )[k],
            decreases i,
        {
            i -= 1;
            proof {
                lemma_take_push(s, i as int);
                lemma_entries_map_push(s.take(i as int), s[i as int]);
            }
            if str_eq(self.entries[i].identity.as_str(), identity) {
                return Some(self.entries[i].number);
            }
        }
        proof {
            assert(s.take(0) =~= Seq::<Entry>::empty());
        }
        None
    }

    /// Returns the number already recorded for `identity` unchanged, or
    /// assigns the next number above the watermark together with the
    /// storage line to append; refuses to assign once the successor of the
    /// watermark would reach the ceiling, leaving the table untouched.
    pub fn get_or_allocate(&mut self, identity: &str) -> (r: Result<
        Allocation,
        AllocationError,
    >)
        requires
            old(self).wf(),
        ensures
            final(self).wf(),
            final(self).entries == old(self).entries,
            match r {
                Ok(a) => {
                    &&& a.is_new == !old(self).as_map().contains_key(identity@)
                    &&& if old(self).as_map().contains_key(identity@) {
                        &&& a.number == old(self).as_map()[identity@]
                        &&& a.append is None
                        &&& *final(self) == *old(self)
                    } else {
                        &&& allocates(*old(self), *final(self), a.number)
                        &&& a.number == old(self).high_watermark + 1
                        &&& a.number < ALLOCATION_CEILING
                        &&& a.number > ALLOCATION_FLOOR
                        &&& forall|k: Seq<char>|
                            old(self).as_map().contains_key(k) ==> a.number > old(
                                self,
                            ).as_map()[k]
                        &&& a.append matches Some(line) && line@ == record_line(
                            identity@,
                            a.number,
                        )
                    }
                },
                Err(e) => {
                    &&& e is CeilingExceeded
                    &&& !old(self).as_map().contains_key(identity@)
                    &&& old(self).high_watermark + 1 >= ALLOCATION_CEILING
                    &&& *final(self) == *old(self)
                },
            },
    {
        match self.lookup(identity) {
            Some(number) => Ok(Allocation { number, is_new: false, append: None }),
            None => {
                if self.high_watermark >= ALLOCATION_CEILING - 1 {
                    return Err(AllocationError::CeilingExceeded);
                }
                let number = self.high_watermark + 1;
                let mut line = String::new();
                line.append(identity);
                line.append(",");
                push_decimal(&mut line, number);
                line.append("\n");
                self.high_watermark = number;
                proof {
                    lemma_entries_map_bound(self.entries@, old(self).high_watermark);
                    assert(line@ =~= record_line(identity@, number));
                }
                Ok(Allocation { number, is_new: true, append: Some(line) })
            },
        }
    }
}

/// Allocated numbers strictly increase within a run: a second fresh
/// allocation always hands out a larger number than the one before it, so
/// no number is handed out twice.
pub proof fn lemma_numbers_increase_within_run(
    t0: AllocationTable,
    t1: AllocationTable,
    t2: AllocationTable,
    n1: u64,
    n2: u64,
)
    requires
        allocates(t0, t1, n1),
        allocates(t1, t2, n2),
    ensures
        n2 > n1,
{
}

/// Numbers are not reused across runs: a table whose watermark has seen a
/// previously assigned number `m` — as loading a storage file that
/// reflects the append of `m` guarantees — never hands `m` out again.
pub proof fn lemma_no_reuse_across_runs(
    loaded: AllocationTable,
    post: AllocationTable,
    m: u64,
    n: u64,
)
    requires
        m <= loaded.high_watermark,
        allocates(loaded, post, n),
    ensures
        n > m,
{
}

} // verus!
