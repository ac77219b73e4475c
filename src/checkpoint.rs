//! The checkpoint set: for each (symbol, interval) pair, the time from which
//! the next page is asked for.

use vstd::prelude::*;

verus! {

/// A pair and its resume cursor, as plain values.
pub type CursorView = (Seq<char>, Seq<char>, i64);

/// The resume point of one pair.
#[derive(Debug, Clone)]
pub struct ToSave {
    pub symbol: String,
    pub interval: String,
    pub start_time: i64,
}

impl View for ToSave {
    type V = CursorView;

    open spec fn view(&self) -> CursorView {
        (self.symbol@, self.interval@, self.start_time)
    }
}

impl ToSave {
    pub fn new(symbol: String, interval: String, start_time: i64) -> (r: ToSave)
        ensures
            r@ == (symbol@, interval@, start_time),
    {
        ToSave { symbol, interval, start_time }
    }

    pub fn get_symbol(&self) -> (r: String)
        ensures
            r@ == self.symbol@,
    {
        self.symbol.clone()
    }

    pub fn get_interval(&self) -> (r: String)
        ensures
            r@ == self.interval@,
    {
        self.interval.clone()
    }

    pub fn get_start_time(&self) -> (r: i64)
        ensures
            r == self.start_time,
    {
        self.start_time
    }

    /// A copy with the same pair and cursor.
    pub fn copy(&self) -> (r: ToSave)
        ensures
            r@ == self@,
    {
        ToSave {
            symbol: self.symbol.clone(),
            interval: self.interval.clone(),
            start_time: self.start_time,
        }
    }
}

pub open spec fn same_pair(e: CursorView, symbol: Seq<char>, interval: Seq<char>) -> bool {
    e.0 == symbol && e.1 == interval
}

pub open spec fn has_pair(s: Seq<CursorView>, symbol: Seq<char>, interval: Seq<char>) -> bool {
    exists|i: int| 0 <= i < s.len() && same_pair(#[trigger] s[i], symbol, interval)
}

/// No pair occurs twice.
pub open spec fn unique_pairs(s: Seq<CursorView>) -> bool {
    forall|i: int, j: int|
        0 <= i < s.len() && 0 <= j < s.len() && #[trigger] s[i].0 == #[trigger] s[j].0 && s[i].1
            == s[j].1 ==> i == j
}

/// The first entry of each pair, in their order.
pub open spec fn first_of_each(s: Seq<CursorView>) -> Seq<CursorView>
    decreases s.len(),
{
    if s.len() == 0 {
        Seq::empty()
    } else {
        let d = first_of_each(s.drop_last());
        if has_pair(d, s.last().0, s.last().1) {
            d
        } else {
            d.push(s.last())
        }
    }
}

pub open spec fn max_i64(a: i64, b: i64) -> i64 {
    if a >= b { a } else { b }
}

/// The set after moving the cursor of one pair to `t`: a known pair keeps
/// the later of its cursor and `t`; an unknown pair is added at the end.
pub open spec fn advanced(s: Seq<CursorView>, symbol: Seq<char>, interval: Seq<char>, t: i64) -> Seq<
    CursorView,
> {
    if has_pair(s, symbol, interval) {
        s.map_values(
            |e: CursorView|
                if same_pair(e, symbol, interval) {
                    (e.0, e.1, max_i64(e.2, t))
                } else {
                    e
                },
        )
    } else {
        s.push((symbol, interval, t))
    }
}

/// Index of the entry of a pair, if there is one.
fn find(entries: &Vec<ToSave>, symbol: &String, interval: &String) -> (r: Option<usize>)
    ensures
        r is None <==> !has_pair(entries@.map_values(|e: ToSave| e@), symbol@, interval@),
        r matches Some(i) ==> i < entries.len() && same_pair(entries@[i as int]@, symbol@, interval@),
{
    let ghost v = entries@.map_values(|e: ToSave| e@);
    let mut i: usize = 0;
    while i < entries.len()
        invariant
            i <= entries.len(),
            v == entries@.map_values(|e: ToSave| e@),
            forall|k: int| 0 <= k < i ==> !same_pair(#[trigger] v[k], symbol@, interval@),
        decreases entries.len() - i,
    {
        if entries[i].symbol == *symbol && entries[i].interval == *interval {
            assert(same_pair(v[i as int], symbol@, interval@));
            return Some(i);
        }
        i = i + 1;
    }
    None
}

/// Every pair's resume cursor; each pair occurs once.
#[derive(Debug, Clone)]
pub struct Backup {
    pub symbols: Vec<ToSave>,
}

impl View for Backup {
    type V = Seq<CursorView>;

    open spec fn view(&self) -> Seq<CursorView> {
        self.symbols@.map_values(|e: ToSave| e@)
    }
}

impl Backup {
    pub open spec fn wf(&self) -> bool {
        unique_pairs(self@)
    }

    /// A set built from stored entries; where a pair occurs more than once,
    /// its first entry wins.
    pub fn from_entries(entries: &Vec<ToSave>) -> (r: Backup)
        ensures
            r.wf(),
            r@ == first_of_each(entries@.map_values(|e: ToSave| e@)),
    {
        let ghost v = entries@.map_values(|e: ToSave| e@);
        let mut out = Backup { symbols: Vec::new() };
        let mut i: usize = 0;
        while i < entries.len()
            invariant
                i <= entries.len(),
                v == entries@.map_values(|e: ToSave| e@),
                out@ == first_of_each(v.subrange(0, i as int)),
                out.wf(),
            decreases entries.len() - i,
        {
            let e = &entries[i];
            assert(v.subrange(0, i + 1).drop_last() =~= v.subrange(0, i as int));
            assert(v.subrange(0, i + 1).last() == e@);
            match find(&out.symbols, &e.symbol, &e.interval) {
                Some(_) => {},
                None => {
                    out.symbols.push(e.copy());
                    assert(out@ =~= first_of_each(v.subrange(0, i as int)).push(e@));
                },
            }
            i = i + 1;
        }
        assert(v.subrange(0, i as int) =~= v);
        out
    }

    /// The cursor of a pair, if the set holds it.
    pub fn start_time_of(&self, symbol: &String, interval: &String) -> (r: Option<i64>)
        requires
            self.wf(),
        ensures
            r is None <==> !has_pair(self@, symbol@, interval@),
            r matches Some(t) ==> exists|i: int|
                0 <= i < self@.len() && #[trigger] self@[i] == (symbol@, interval@, t),
    {
        match find(&self.symbols, symbol, interval) {
            Some(i) => {
                assert(self@[i as int] == (symbol@, interval@, self.symbols[i as int].start_time));
                Some(self.symbols[i].start_time)
            },
            None => None,
        }
    }

    /// Moves the cursor of one pair to `start_time`, never back: a pair
    /// already held keeps the later of the two, a new pair is added.
    pub fn advance(&mut self, symbol: &String, interval: &String, start_time: i64)
        requires
            old(self).wf(),
        ensures
            final(self).wf(),
            final(self)@ == advanced(old(self)@, symbol@, interval@, start_time),
    {
        match find(&self.symbols, symbol, interval) {
            Some(i) => {
                let ghost before = self@;
                let cur = self.symbols[i].start_time;
                if start_time > cur {
                    self.symbols[i].start_time = start_time;
                }
                proof {
                    assert forall|k: int| 0 <= k < before.len() implies #[trigger] self@[k] == (
                    if same_pair(before[k], symbol@, interval@) {
                        (before[k].0, before[k].1, max_i64(before[k].2, start_time))
                    } else {
                        before[k]
                    }) by {
                        if same_pair(before[k], symbol@, interval@) {
                            assert(before[k].0 == before[i as int].0);
                            assert(k == i);
                        }
                    }
                    assert(self@ =~= advanced(before, symbol@, interval@, start_time));
                }
            },
            None => {
                self.symbols.push(ToSave::new(symbol.clone(), interval.clone(), start_time));
                assert(self@ =~= old(self)@.push((symbol@, interval@, start_time)));
            },
        }
    }
}


/// The set holds the pair with a cursor of at least `t`.
pub open spec fn holds_at_least(s: Seq<CursorView>, symbol: Seq<char>, interval: Seq<char>, t: i64) -> bool {
    exists|i: int| 0 <= i < s.len() && same_pair(#[trigger] s[i], symbol, interval) && s[i].2 >= t
}

/// The set after the advances `ops` (pair and cursor each), one after the other.
pub open spec fn advanced_all(s: Seq<CursorView>, ops: Seq<CursorView>) -> Seq<CursorView>
    decreases ops.len(),
{
    if ops.len() == 0 {
        s
    } else {
        let op = ops.last();
        advanced(advanced_all(s, ops.drop_last()), op.0, op.1, op.2)
    }
}

/// An advance never moves a cursor back and never drops a pair: every entry
/// keeps its place and pair with a cursor at least as late as before, and
/// the advanced pair ends with a cursor of at least the requested time.
pub proof fn lemma_advance_never_regresses(
    s: Seq<CursorView>,
    symbol: Seq<char>,
    interval: Seq<char>,
    t: i64,
)
    ensures
        advanced(s, symbol, interval, t).len() >= s.len(),
        forall|i: int|
            0 <= i < s.len() ==> {
                let e = #[trigger] advanced(s, symbol, interval, t)[i];
                e.0 == s[i].0 && e.1 == s[i].1 && e.2 >= s[i].2
            },
        holds_at_least(advanced(s, symbol, interval, t), symbol, interval, t),
{
    let r = advanced(s, symbol, interval, t);
    if has_pair(s, symbol, interval) {
        let k = choose|k: int| 0 <= k < s.len() && same_pair(#[trigger] s[k], symbol, interval);
        assert(same_pair(r[k], symbol, interval) && r[k].2 >= t);
    } else {
        assert(same_pair(r[s.len() as int], symbol, interval));
    }
}

/// An advance keeps each pair at most once.
pub proof fn lemma_advance_keeps_pairs_unique(
    s: Seq<CursorView>,
    symbol: Seq<char>,
    interval: Seq<char>,
    t: i64,
)
    requires
        unique_pairs(s),
    ensures
        unique_pairs(advanced(s, symbol, interval, t)),
{
    let r = advanced(s, symbol, interval, t);
    if !has_pair(s, symbol, interval) {
        assert forall|i: int, j: int|
            0 <= i < r.len() && 0 <= j < r.len() && #[trigger] r[i].0 == #[trigger] r[j].0 && r[i].1
                == r[j].1 implies i == j by {
            if i < s.len() && j == s.len() {
                assert(same_pair(s[i], symbol, interval));
            } else if j < s.len() && i == s.len() {
                assert(same_pair(s[j], symbol, interval));
            } else if i < s.len() && j < s.len() {
                assert(s[i].0 == s[j].0);
            }
        }
    } else {
        assert forall|i: int, j: int|
            0 <= i < r.len() && 0 <= j < r.len() && #[trigger] r[i].0 == #[trigger] r[j].0 && r[i].1
                == r[j].1 implies i == j by {
            assert(s[i].0 == s[j].0);
        }
    }
}

/// No advance is lost: after any sequence of advances, whatever pairs they
/// name and in whatever order they were serialized, every advanced pair is
/// held with a cursor at least as late as each time it was advanced to, and
/// each pair still occurs once.
pub proof fn lemma_no_lost_update(s: Seq<CursorView>, ops: Seq<CursorView>)
    requires
        unique_pairs(s),
    ensures
        unique_pairs(advanced_all(s, ops)),
        forall|j: int|
            0 <= j < ops.len() ==> holds_at_least(
                advanced_all(s, ops),
                (#[trigger] ops[j]).0,
                ops[j].1,
                ops[j].2,
            ),
    decreases ops.len(),
{
    if ops.len() > 0 {
        let prev = ops.drop_last();
        let op = ops.last();
        let before = advanced_all(s, prev);
        lemma_no_lost_update(s, prev);
        lemma_advance_keeps_pairs_unique(before, op.0, op.1, op.2);
        lemma_advance_never_regresses(before, op.0, op.1, op.2);
        let after = advanced(before, op.0, op.1, op.2);
        assert forall|j: int| 0 <= j < ops.len() implies holds_at_least(
            after,
            (#[trigger] ops[j]).0,
            ops[j].1,
            ops[j].2,
        ) by {
            if j < ops.len() - 1 {
                assert(prev[j] == ops[j]);
                let i = choose|i: int|
                    0 <= i < before.len() && same_pair(#[trigger] before[i], prev[j].0, prev[j].1)
                        && before[i].2 >= prev[j].2;
                assert(same_pair(after[i], ops[j].0, ops[j].1) && after[i].2 >= ops[j].2);
            }
        }
    }
}

} // verus!
