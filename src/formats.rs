use vstd::prelude::*;

use crate::format::Format;

verus! {

/// The change points of a run list are ordered by offset, and the first one is at 0.
pub open spec fn runs_wf(s: Seq<(usize, Format)>) -> bool {
    &&& s.len() >= 1
    &&& s[0].0 == 0
    &&& forall|i: int, j: int| 0 <= i < j < s.len() ==> #[trigger] s[i].0 < #[trigger] s[j].0
}

/// No two neighbouring change points hold equal formats.
pub open spec fn runs_coalesced(s: Seq<(usize, Format)>) -> bool {
    forall|i: int, j: int|
        0 <= i && j == i + 1 && j < s.len() ==> #[trigger] s[i].1 != #[trigger] s[j].1
}

/// Index of the change point whose run covers offset `q`: the last one at or before `q`.
pub open spec fn floor_index(s: Seq<(usize, Format)>, q: usize) -> int
    decreases s.len(),
{
    if s.len() <= 1 {
        0
    } else if s.last().0 <= q {
        s.len() - 1
    } else {
        floor_index(s.drop_last(), q)
    }
}

/// The run list after `format` is made active from `offset` on. An existing change point
/// at `offset` is overwritten, or removed where the run before it holds `format`;
/// otherwise a new one is inserted after the covering run, unless that run already
/// holds `format`.
pub open spec fn set_spec(s: Seq<(usize, Format)>, offset: usize, format: Format) -> Seq<
    (usize, Format),
> {
    let i = floor_index(s, offset);
    if s[i].0 == offset {
        if i > 0 && s[i - 1].1 == format {
            s.remove(i)
        } else {
            s.update(i, (offset, format))
        }
    } else if s[i].1 == format {
        s
    } else {
        s.insert(i + 1, (offset, format))
    }
}

/// The run list without its last change point, unless that is the one at offset 0.
pub open spec fn pop_spec(s: Seq<(usize, Format)>) -> Seq<(usize, Format)> {
    if s.len() > 1 {
        s.drop_last()
    } else {
        s
    }
}

/// The covering change point of `q` is at or before `q`, and every later one is after `q`.
pub proof fn lemma_floor_index(s: Seq<(usize, Format)>, q: usize)
    requires
        runs_wf(s),
    ensures
        0 <= floor_index(s, q) < s.len(),
        s[floor_index(s, q)].0 <= q,
        forall|j: int| floor_index(s, q) < j < s.len() ==> q < #[trigger] s[j].0,
    decreases s.len(),
{
    if s.len() > 1 && s.last().0 > q {
        let t = s.drop_last();
        assert(runs_wf(t));
        lemma_floor_index(t, q);
        assert forall|j: int| floor_index(s, q) < j < s.len() implies q < #[trigger] s[j].0 by {
            if j < s.len() - 1 {
                assert(t[j] == s[j]);
            }
        }
    }
}

/// The covering change point is the only one at or before `q` with all later ones after `q`.
pub proof fn lemma_floor_index_unique(s: Seq<(usize, Format)>, q: usize, i: int)
    requires
        runs_wf(s),
        0 <= i < s.len(),
        s[i].0 <= q,
        forall|j: int| i < j < s.len() ==> q < #[trigger] s[j].0,
    ensures
        floor_index(s, q) == i,
{
    lemma_floor_index(s, q);
    let k = floor_index(s, q);
    if k < i {
        assert(q < s[i].0);
    } else if i < k {
        assert(q < s[k].0);
    }
}

/// Offsets start at 0 and strictly increase, so each is at least its index.
proof fn lemma_offset_at_least_index(s: Seq<(usize, Format)>, k: int)
    requires
        runs_wf(s),
        0 <= k < s.len(),
    ensures
        k <= s[k].0,
    decreases k,
{
    if k > 0 {
        lemma_offset_at_least_index(s, k - 1);
        assert(s[k - 1].0 < s[k].0);
    }
}

/// Changing the format of one change point keeps the order, whatever the new format.
proof fn lemma_update_keeps_order(s: Seq<(usize, Format)>, i: int)
    requires
        0 <= i < s.len(),
    ensures
        forall|f: Format| runs_wf(s) ==> #[trigger] runs_wf(s.update(i, (s[i].0, f))),
{
    assert forall|f: Format| runs_wf(s) implies #[trigger] runs_wf(s.update(i, (s[i].0, f))) by {
        let t = s.update(i, (s[i].0, f));
        assert forall|a: int, b: int| 0 <= a < b < t.len() implies #[trigger] t[a].0
            < #[trigger] t[b].0 by {
            assert(s[a].0 < s[b].0);
        }
    }
}

/// Setting and popping keep the change points ordered, with the first at offset 0.
pub proof fn lemma_set_pop_keep_order(s: Seq<(usize, Format)>, offset: usize, format: Format)
    requires
        runs_wf(s),
    ensures
        runs_wf(set_spec(s, offset, format)),
        runs_wf(pop_spec(s)),
{
    lemma_floor_index(s, offset);
    let i = floor_index(s, offset);
    let t = set_spec(s, offset, format);
    if s[i].0 == offset && i > 0 && s[i - 1].1 == format {
        assert forall|a: int, b: int| 0 <= a < b < t.len() implies #[trigger] t[a].0
            < #[trigger] t[b].0 by {
            if a >= i {
                assert(t[a] == s[a + 1]);
            }
            if b >= i {
                assert(t[b] == s[b + 1]);
            }
        }
    }
    if s[i].0 != offset && s[i].1 != format {
        assert forall|a: int, b: int| 0 <= a < b < t.len() implies #[trigger] t[a].0
            < #[trigger] t[b].0 by {
            if b <= i {
            } else if b == i + 1 {
                assert(s[a].0 <= s[i].0);
            } else if a == i + 1 {
                assert(t[b] == s[b - 1]);
            } else if a <= i {
                assert(t[b] == s[b - 1]);
            } else {
                assert(t[b] == s[b - 1]);
                assert(t[a] == s[a - 1]);
            }
        }
    }
}

/// Setting the same format at the same offset twice gives what setting it once gives.
pub proof fn lemma_set_idempotent(s: Seq<(usize, Format)>, offset: usize, format: Format)
    requires
        runs_wf(s),
    ensures
        set_spec(set_spec(s, offset, format), offset, format) == set_spec(s, offset, format),
{
    lemma_floor_index(s, offset);
    lemma_set_pop_keep_order(s, offset, format);
    let i = floor_index(s, offset);
    let t = set_spec(s, offset, format);
    if s[i].0 == offset && i > 0 && s[i - 1].1 == format {
        assert(s[i - 1].0 < s[i].0);
        assert forall|j: int| i - 1 < j < t.len() implies offset < #[trigger] t[j].0 by {
            assert(t[j] == s[j + 1]);
        }
        assert(t[i - 1] == s[i - 1]);
        lemma_floor_index_unique(t, offset, i - 1);
    } else if s[i].0 == offset {
        assert forall|j: int| i < j < t.len() implies offset < #[trigger] t[j].0 by {
            assert(t[j] == s[j]);
        }
        lemma_floor_index_unique(t, offset, i);
        assert(t.update(i, (offset, format)) =~= t);
    } else if s[i].1 != format {
        assert forall|j: int| i + 1 < j < t.len() implies offset < #[trigger] t[j].0 by {
            assert(t[j] == s[j - 1]);
        }
        lemma_floor_index_unique(t, offset, i + 1);
        assert(t.update(i + 1, (offset, format)) =~= t);
    }
}

/// Popping the last change point `(o, f)` and setting `f` at `o` again gives back the
/// run list, unless `f` equals the format that pop left last (then setting coalesces).
pub proof fn lemma_pop_set_inverse(s: Seq<(usize, Format)>)
    requires
        runs_wf(s),
        s.len() == 1 || pop_spec(s).last().1 != s.last().1,
    ensures
        set_spec(pop_spec(s), s.last().0, s.last().1) == s,
{
    let o = s.last().0;
    let f = s.last().1;
    let p = pop_spec(s);
    if s.len() == 1 {
        lemma_floor_index_unique(s, o, 0);
        assert(s.update(0, (o, f)) =~= s);
    } else {
        assert(runs_wf(p));
        let k = p.len() - 1;
        assert(p[k].0 < o);
        lemma_floor_index_unique(p, o, k);
        assert(p.insert(k + 1, (o, f)) =~= s);
    }
}

/// Setting a format keeps a coalesced run list coalesced, unless the format equals that of
/// the change point right after the covering run (that one is never compared).
pub proof fn lemma_set_keeps_coalesced(s: Seq<(usize, Format)>, offset: usize, format: Format)
    requires
        runs_wf(s),
        runs_coalesced(s),
        floor_index(s, offset) + 1 < s.len() ==> s[floor_index(s, offset) + 1].1 != format,
    ensures
        runs_coalesced(set_spec(s, offset, format)),
{
    lemma_floor_index(s, offset);
    let i = floor_index(s, offset);
    let t = set_spec(s, offset, format);
    if s[i].0 == offset && i > 0 && s[i - 1].1 == format {
        assert forall|k: int, j: int| 0 <= k && j == k + 1 && j < t.len() implies #[trigger] t[k].1
            != #[trigger] t[j].1 by {
            if k >= i {
                assert(t[k] == s[k + 1]);
                assert(t[j] == s[j + 1]);
            } else if j == i {
                assert(t[k] == s[i - 1]);
                assert(t[j] == s[i + 1]);
            } else {
                assert(t[k] == s[k]);
                assert(t[j] == s[j]);
            }
        }
    } else if s[i].0 == offset {
        assert forall|k: int, j: int| 0 <= k && j == k + 1 && j < t.len() implies #[trigger] t[k].1
            != #[trigger] t[j].1 by {
            if k == i {
                assert(t[j] == s[i + 1]);
            } else if j == i {
                assert(t[k] == s[i - 1]);
            } else {
                assert(t[k] == s[k]);
                assert(t[j] == s[j]);
            }
        }
    } else if s[i].1 != format {
        assert forall|k: int, j: int| 0 <= k && j == k + 1 && j < t.len() implies #[trigger] t[k].1
            != #[trigger] t[j].1 by {
            if j > i + 2 {
                assert(t[j] == s[j - 1]);
                assert(t[k] == s[k - 1]);
            } else if j == i + 2 {
                assert(t[j] == s[i + 1]);
                assert(t[k] == (offset, format));
            } else if j == i + 1 {
                assert(t[k] == s[i]);
                assert(t[j] == (offset, format));
            } else {
                assert(t[j] == s[j]);
                assert(t[k] == s[k]);
            }
        }
    }
}

/// Popping keeps a coalesced run list coalesced.
pub proof fn lemma_pop_keeps_coalesced(s: Seq<(usize, Format)>)
    requires
        runs_coalesced(s),
    ensures
        runs_coalesced(pop_spec(s)),
{
    let p = pop_spec(s);
    assert forall|k: int, j: int| 0 <= k && j == k + 1 && j < p.len() implies #[trigger] p[k].1
        != #[trigger] p[j].1 by {
        assert(p[j] == s[j]);
        assert(p[j - 1] == s[j - 1]);
    }
}

/// A non-empty sequence of offsets and the formats that start at them.
///
/// The first format starts at offset 0; the others are change points with
/// strictly increasing, nonzero offsets. Each format holds up to the next change point,
/// the last one to the end.
#[derive(Clone, Debug)]
pub struct Formats {
    first: Format,
    rest: Vec<(usize, Format)>,
}

impl View for Formats {
    type V = Seq<(usize, Format)>;

    /// All change points, the one at offset 0 included, in order.
    closed spec fn view(&self) -> Seq<(usize, Format)> {
        seq![(0usize, self.first)] + self.rest@
    }
}

impl Default for Formats {
    fn default() -> (r: Formats)
        ensures
            r@ == seq![(0usize, Format::spec_default())],
            r.wf(),
    {
        let r = Formats { first: Format::default(), rest: Vec::new() };
        assert(r@ =~= seq![(0usize, Format::spec_default())]);
        r
    }
}

impl Formats {
    /// The change points are ordered, with the first at offset 0.
    pub open spec fn wf(&self) -> bool {
        runs_wf(self@)
    }

    proof fn lemma_view(&self)
        ensures
            self@.len() == self.rest@.len() + 1,
            self@[0] == (0usize, self.first),
            forall|k: int| 0 <= k < self.rest@.len() ==> self@[k + 1] == #[trigger] self.rest@[k],
    {
    }

    /// The format that starts at offset 0.
    pub fn first(&self) -> (r: &Format)
        ensures
            *r == self@[0].1,
    {
        proof {
            self.lemma_view();
        }
        &self.first
    }

    /// The format that starts at offset 0, to change in place.
    pub fn first_mut(&mut self) -> (r: &mut Format)
        ensures
            *r == old(self)@[0].1,
            final(self)@ == old(self)@.update(0, (0usize, *final(r))),
            old(self).wf() ==> final(self).wf(),
    {
        proof {
            self.lemma_view();
            lemma_update_keeps_order(self@, 0);
        }
        &mut self.first
    }

    /// The last change point: its offset and its format.
    #[inline]
    pub fn last(&self) -> (r: (usize, &Format))
        ensures
            r.0 == self@.last().0,
            *r.1 == self@.last().1,
    {
        proof {
            self.lemma_view();
        }
        let n = self.rest.len();
        if n > 0 {
            let e = &self.rest[n - 1];
            (e.0, &e.1)
        } else {
            (0, &self.first)
        }
    }

    /// Removes the last change point and returns it; `None` when only the one at
    /// offset 0 is left.
    pub fn pop(&mut self) -> (r: Option<(usize, Format)>)
        requires
            old(self).wf(),
        ensures
            final(self)@ == pop_spec(old(self)@),
            final(self).wf(),
            old(self)@.len() > 1 ==> r == Some(old(self)@.last()),
            old(self)@.len() == 1 ==> r.is_none(),
    {
        proof {
            self.lemma_view();
            lemma_set_pop_keep_order(self@, 0, self.first);
        }
        let r = self.rest.pop();
        proof {
            assert(self@ =~= pop_spec(old(self)@));
        }
        r
    }

    /// Change point `iidx`, counting the one at offset 0 as 0.
    fn get_(&self, iidx: usize) -> (r: (usize, &Format))
        requires
            iidx < self@.len(),
        ensures
            r.0 == self@[iidx as int].0,
            *r.1 == self@[iidx as int].1,
    {
        proof {
            self.lemma_view();
        }
        if iidx == 0 {
            (0, &self.first)
        } else {
            let e = &self.rest[iidx - 1];
            (e.0, &e.1)
        }
    }

    /// Finds `idx`: `Ok` with the index of the change point at `idx`, or `Err` with the
    /// index at which a change point for `idx` would be inserted.
    fn search(&self, idx: usize) -> (r: Result<usize, usize>)
        requires
            self.wf(),
        ensures
            match r {
                Ok(i) => i == floor_index(self@, idx) && self@[i as int].0 == idx,
                Err(i) => i == floor_index(self@, idx) + 1 && self@[i - 1].0 < idx,
            },
    {
        proof {
            self.lemma_view();
            lemma_floor_index(self@, idx);
        }
        if idx == 0 {
            proof {
                lemma_floor_index_unique(self@, idx, 0);
            }
            return Ok(0);
        }
        // Appending is the common case: try the last change point first.
        let n = self.rest.len();
        let last_idx = self.last().0;
        if idx > last_idx {
            proof {
                lemma_floor_index_unique(self@, idx, n as int);
                lemma_offset_at_least_index(self@, n as int);
            }
            return Err(n + 1);
        } else if idx == last_idx {
            proof {
                lemma_floor_index_unique(self@, idx, n as int);
            }
            return Ok(n);
        }
        // Here `idx` lies before the last change point, so `rest` is not empty.
        let mut lo: usize = 0;
        let mut hi: usize = n;
        while lo < hi
            invariant
                self.wf(),
                n == self.rest@.len(),
                lo <= hi <= n,
                forall|k: int| 0 <= k < lo ==> #[trigger] self.rest@[k].0 <= idx,
                forall|k: int| hi <= k < n ==> idx < #[trigger] self.rest@[k].0,
            decreases hi - lo,
        {
            let mid = lo + (hi - lo) / 2;
            if self.rest[mid].0 <= idx {
                proof {
                    assert forall|k: int| 0 <= k < mid + 1 implies #[trigger] self.rest@[k].0
                        <= idx by {
                        if k < mid {
                            assert(self@[k + 1].0 < self@[mid + 1].0);
                        }
                    }
                }
                lo = mid + 1;
            } else {
                proof {
                    assert forall|k: int| mid <= k < n implies idx < #[trigger] self.rest@[k].0 by {
                        if k > mid {
                            assert(self@[mid + 1].0 < self@[k + 1].0);
                        }
                    }
                }
                hi = mid;
            }
        }
        // `rest[..lo]` are at or before `idx`, `rest[lo..]` after it.
        proof {
            assert forall|j: int| lo < j < self@.len() implies idx < #[trigger] self@[j].0 by {
                assert(self@[j] == self.rest@[j - 1]);
            }
            if lo > 0 {
                assert(self@[lo as int] == self.rest@[lo - 1]);
            }
            lemma_floor_index_unique(self@, idx, lo as int);
        }
        if lo > 0 && self.rest[lo - 1].0 == idx {
            Ok(lo)
        } else {
            Err(lo + 1)
        }
    }

    /// The change point whose run covers offset `idx`: the last one at or before `idx`.
    #[inline]
    pub fn lookup(&self, idx: usize) -> (r: (usize, &Format))
        requires
            self.wf(),
        ensures
            0 <= floor_index(self@, idx) < self@.len(),
            r.0 == self@[floor_index(self@, idx)].0,
            *r.1 == self@[floor_index(self@, idx)].1,
            r.0 <= idx,
            forall|j: int| floor_index(self@, idx) < j < self@.len() ==> idx < #[trigger] self@[j].0,
    {
        proof {
            lemma_floor_index(self@, idx);
        }
        let i = match self.search(idx) {
            Ok(i) => i,
            Err(i) => i - 1,
        };
        self.get_(i)
    }

    /// The last change point: its offset, and its format to change in place.
    #[inline]
    pub fn last_mut(&mut self) -> (r: (usize, &mut Format))
        ensures
            r.0 == old(self)@.last().0,
            *r.1 == old(self)@.last().1,
            final(self)@ == old(self)@.update(old(self)@.len() - 1, (r.0, *final(r.1))),
            old(self).wf() ==> final(self).wf(),
    {
        proof {
            self.lemma_view();
            lemma_update_keeps_order(self@, self@.len() - 1);
        }
        let n = self.rest.len();
        self.get_mut_(n)
    }

    /// Change point `iidx`, counting the one at offset 0 as 0, with its format to change
    /// in place.
    fn get_mut_(&mut self, iidx: usize) -> (r: (usize, &mut Format))
        requires
            iidx < old(self)@.len(),
        ensures
            r.0 == old(self)@[iidx as int].0,
            *r.1 == old(self)@[iidx as int].1,
            final(self)@ == old(self)@.update(iidx as int, (r.0, *final(r.1))),
    {
        proof {
            self.lemma_view();
        }
        if iidx == 0 {
            let r = &mut self.first;
            proof {
                assert(after_borrow(*self)@ =~= old(self)@.update(0, (0usize, *final(r))));
            }
            (0, r)
        } else {
            let e = &mut self.rest[iidx - 1];
            let start = e.0;
            (start, &mut e.1)
        }
    }

    /// Overwrites the format of change point `iidx`.
    fn set_(&mut self, iidx: usize, format: Format)
        requires
            iidx < old(self)@.len(),
        ensures
            final(self)@ == old(self)@.update(iidx as int, (old(self)@[iidx as int].0, format)),
    {
        let (_, f) = self.get_mut_(iidx);
        *f = format;
    }

    /// Inserts `element` right after change point `idx`, unless that one already holds
    /// its format.
    fn insert_after_(&mut self, idx: usize, element: (usize, Format))
        requires
            idx < old(self)@.len(),
        ensures
            final(self)@ == (if old(self)@[idx as int].1 == element.1 {
                old(self)@
            } else {
                old(self)@.insert(idx + 1, element)
            }),
    {
        proof {
            self.lemma_view();
        }
        let same = *self.get_(idx).1 == element.1;
        if !same {
            self.rest.insert(idx, element);
            proof {
                assert(self@ =~= old(self)@.insert(idx + 1, element));
            }
        }
    }

    /// The change point whose run covers offset `idx`, with its format to change in place.
    #[inline]
    pub fn lookup_mut(&mut self, idx: usize) -> (r: (usize, &mut Format))
        requires
            old(self).wf(),
        ensures
            r.0 == old(self)@[floor_index(old(self)@, idx)].0,
            *r.1 == old(self)@[floor_index(old(self)@, idx)].1,
            r.0 <= idx,
            final(self)@ == old(self)@.update(floor_index(old(self)@, idx), (r.0, *final(r.1))),
            final(self).wf(),
    {
        proof {
            lemma_floor_index(self@, idx);
            lemma_update_keeps_order(self@, floor_index(self@, idx));
        }
        let i = match self.search(idx) {
            Ok(i) => i,
            Err(i) => i - 1,
        };
        self.get_mut_(i)
    }

    /// Makes `format` active from offset `idx` up to the next change point.
    ///
    /// A change point at `idx` is overwritten, or removed where the run before it already
    /// holds `format`. Otherwise one is inserted, unless the run that covers `idx` already
    /// holds `format`. The run after it is never compared.
    pub fn set(&mut self, idx: usize, format: Format) -> (r: &mut Formats)
        requires
            old(self).wf(),
        ensures
            r@ == set_spec(old(self)@, idx, format),
            r.wf(),
            *final(self) == *final(r),
    {
        proof {
            lemma_set_pop_keep_order(self@, idx, format);
            lemma_floor_index(self@, idx);
        }
        match self.search(idx) {
            Ok(iidx) => {
                if iidx > 0 && *self.get_(iidx - 1).1 == format {
                    proof {
                        self.lemma_view();
                    }
                    self.rest.remove(iidx - 1);
                    proof {
                        assert(self@ =~= old(self)@.remove(iidx as int));
                    }
                } else {
                    self.set_(iidx, format);
                }
            },
            Err(iidx) => self.insert_after_(iidx - 1, (idx, format)),
        }
        self
    }

    /// Replaces every format, the one at offset 0 first, by what `f` makes of it.
    pub fn transform(&mut self, f: impl Fn(Format) -> Format) -> (r: &mut Self)
        requires
            forall|x: Format| f.requires((x,)),
            old(self).wf(),
        ensures
            r@.len() == old(self)@.len(),
            forall|i: int|
                0 <= i < r@.len() ==> #[trigger] r@[i].0 == old(self)@[i].0 && f.ensures(
                    (old(self)@[i].1,),
                    r@[i].1,
                ),
            r.wf(),
            *final(self) == *final(r),
    {
        proof {
            self.lemma_view();
        }
        self.first = f(self.first);
        let n = self.rest.len();
        let mut k: usize = 0;
        while k < n
            invariant
                forall|x: Format| f.requires((x,)),
                0 <= k <= n,
                n == old(self).rest@.len(),
                self.rest@.len() == n,
                f.ensures((old(self).first,), self.first),
                forall|j: int|
                    0 <= j < k ==> #[trigger] self.rest@[j].0 == old(self).rest@[j].0 && f.ensures(
                        (old(self).rest@[j].1,),
                        self.rest@[j].1,
                    ),
                forall|j: int| k <= j < n ==> #[trigger] self.rest@[j] == old(self).rest@[j],
            decreases n - k,
        {
            let (o, x) = self.rest[k];
            let y = f(x);
            let ghost before = self.rest@;
            self.rest.set(k, (o, y));
            proof {
                assert forall|j: int| 0 <= j < k + 1 implies #[trigger] self.rest@[j].0
                    == old(self).rest@[j].0 && f.ensures((old(self).rest@[j].1,), self.rest@[j].1) by {
                    if j < k {
                        assert(self.rest@[j] == before[j]);
                    } else {
                        assert(before[j] == old(self).rest@[j]);
                        assert(self.rest@[j] == (o, y));
                    }
                }
            }
            k = k + 1;
        }
        proof {
            self.lemma_view();
            old(self).lemma_view();
            assert forall|i: int| 0 <= i < self@.len() implies #[trigger] self@[i].0 == old(self)@[i].0
                && f.ensures((old(self)@[i].1,), self@[i].1) by {
                if i > 0 {
                    assert(self@[i] == self.rest@[i - 1]);
                    assert(old(self)@[i] == old(self).rest@[i - 1]);
                }
            }
            assert(runs_wf(self@));
        }
        self
    }
}

} // verus!
