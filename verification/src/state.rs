//! The gossip state of the broadcast service.
//!
//! A node keeps the set of values it has seen and, for each neighbor, the
//! subset of those values the neighbor has not yet acknowledged (its *pending*
//! set).  A value joins every neighbor's pending set the moment it is first
//! seen, and leaves a neighbor's pending set only when that neighbor
//! acknowledges it.  Re-sending a neighbor's entire pending set whenever it
//! changes is what makes replication self-healing: a lost message is retried
//! the next time anything new arrives for that neighbor.

use vstd::prelude::*;
use crate::text::{clone_values, contains_value, str_eq};

verus! {

/// A neighbor of this node together with the values pending its
/// acknowledgment.
#[derive(Debug, PartialEq, Eq)]
pub struct Neighbor {
    pub node_id: String,
    pub pending: Vec<u64>,
}

impl View for Neighbor {
    type V = (Seq<char>, Seq<u64>);

    open spec fn view(&self) -> (Seq<char>, Seq<u64>) {
        (self.node_id@, self.pending@)
    }
}

/// A sequence holds no value twice.
pub open spec fn no_dups(s: Seq<u64>) -> bool {
    forall|i: int, j: int| 0 <= i < j < s.len() ==> s[i] != s[j]
}

/// `values` folded into `p` from the front: each value not yet present is
/// appended, in order of first occurrence.
pub open spec fn insert_missing(p: Seq<u64>, values: Seq<u64>) -> Seq<u64>
    decreases values.len(),
{
    if values.len() == 0 {
        p
    } else {
        let p1 = if p.contains(values.first()) {
            p
        } else {
            p.push(values.first())
        };
        insert_missing(p1, values.drop_first())
    }
}

/// Whether folding `values` into `n`'s pending set would change it.
pub open spec fn pending_changed(n: Neighbor, values: Seq<u64>) -> bool {
    exists|j: int| 0 <= j < values.len() && !n.pending@.contains(#[trigger] values[j])
}

/// The replication traffic caused by folding `values` into each of `ns`:
/// one entry per neighbor whose pending set changed, in neighbor order,
/// carrying that neighbor's full updated pending set.
pub open spec fn replication_plan(ns: Seq<Neighbor>, values: Seq<u64>) -> Seq<(Seq<char>, Seq<u64>)>
    decreases ns.len(),
{
    if ns.len() == 0 {
        Seq::empty()
    } else {
        let rest = replication_plan(ns.drop_last(), values);
        let n = ns.last();
        if pending_changed(n, values) {
            rest.push((n.node_id@, insert_missing(n.pending@, values)))
        } else {
            rest
        }
    }
}

/// The values of `p` that are not listed in `values`, in their original
/// order.
pub open spec fn remove_values(p: Seq<u64>, values: Seq<u64>) -> Seq<u64>
    decreases p.len(),
{
    if p.len() == 0 {
        Seq::empty()
    } else {
        let rest = remove_values(p.drop_last(), values);
        if values.contains(p.last()) {
            rest
        } else {
            rest.push(p.last())
        }
    }
}

/// What the removal keeps: exactly the values of `p` not listed in `values`.
pub proof fn lemma_remove_values_contains(p: Seq<u64>, values: Seq<u64>, x: u64)
    ensures
        remove_values(p, values).contains(x) <==> p.contains(x) && !values.contains(x),
    decreases p.len(),
{
    if p.len() > 0 {
        lemma_remove_values_contains(p.drop_last(), values, x);
        assert(p.contains(x) <==> (p.drop_last().contains(x) || x == p.last())) by {
            if p.contains(x) {
                let j = choose|j: int| 0 <= j < p.len() && p[j] == x;
                if j < p.len() - 1 {
                    assert(p.drop_last()[j] == x);
                }
            }
            if p.drop_last().contains(x) {
                let j = choose|j: int|
                    0 <= j < p.drop_last().len() && p.drop_last()[j] == x;
                assert(p[j] == x);
            }
            assert(p[p.len() - 1] == p.last());
        }
        let rest = remove_values(p.drop_last(), values);
        if !values.contains(p.last()) {
            assert(remove_values(p, values) == rest.push(p.last()));
            assert(rest.push(p.last()).contains(x) <==> (rest.contains(x) || x == p.last())) by {
                if rest.push(p.last()).contains(x) && x != p.last() {
                    let j = choose|j: int|
                        0 <= j < rest.push(p.last()).len() && rest.push(p.last())[j] == x;
                    assert(rest[j] == x);
                }
                if rest.contains(x) {
                    let j = choose|j: int| 0 <= j < rest.len() && rest[j] == x;
                    assert(rest.push(p.last())[j] == x);
                }
                assert(rest.push(p.last())[rest.len() as int] == p.last());
            }
        }
    }
}

/// Folding one value appends it exactly when it is missing.
pub proof fn lemma_insert_missing_singleton(p: Seq<u64>, v: u64)
    ensures
        insert_missing(p, seq![v]) == if p.contains(v) {
            p
        } else {
            p.push(v)
        },
{
    let values = seq![v];
    assert(values.first() == v);
    assert(values.drop_first() =~= Seq::<u64>::empty());
    let p1 = if p.contains(v) {
        p
    } else {
        p.push(v)
    };
    assert(insert_missing(p, values) == insert_missing(p1, values.drop_first()));
    assert(insert_missing(p1, Seq::<u64>::empty()) == p1);
}

/// Folding a longer list takes one more step at its end.
pub proof fn lemma_insert_missing_push(p: Seq<u64>, values: Seq<u64>, v: u64)
    ensures
        insert_missing(p, values.push(v)) == {
            let q = insert_missing(p, values);
            if q.contains(v) {
                q
            } else {
                q.push(v)
            }
        },
    decreases values.len(),
{
    if values.len() == 0 {
        assert(values.push(v) =~= seq![v]);
        lemma_insert_missing_singleton(p, v);
        assert(insert_missing(p, values) == p);
    } else {
        let p1 = if p.contains(values.first()) {
            p
        } else {
            p.push(values.first())
        };
        assert(values.push(v).first() == values.first());
        assert(values.push(v).drop_first() =~= values.drop_first().push(v));
        lemma_insert_missing_push(p1, values.drop_first(), v);
    }
}

/// The fold holds exactly the values of `p` and of `values`.
pub proof fn lemma_insert_missing_contains(p: Seq<u64>, values: Seq<u64>, x: u64)
    ensures
        insert_missing(p, values).contains(x) <==> p.contains(x) || values.contains(x),
    decreases values.len(),
{
    if values.len() == 0 {
        assert(!values.contains(x));
    } else {
        let p1 = if p.contains(values.first()) {
            p
        } else {
            p.push(values.first())
        };
        lemma_insert_missing_contains(p1, values.drop_first(), x);
        assert(values.contains(x) <==> (x == values.first() || values.drop_first().contains(x)))
            by {
            if values.contains(x) {
                let j = choose|j: int| 0 <= j < values.len() && values[j] == x;
                if j > 0 {
                    assert(values.drop_first()[j - 1] == x);
                }
            }
            if values.drop_first().contains(x) {
                let j = choose|j: int|
                    0 <= j < values.drop_first().len() && values.drop_first()[j] == x;
                assert(values[j + 1] == x);
            }
            assert(values[0] == values.first());
        }
        if !p.contains(values.first()) {
            assert(p1.contains(x) <==> p.contains(x) || x == values.first()) by {
                if p1.contains(x) && !p.contains(x) {
                    let j = choose|j: int| 0 <= j < p1.len() && p1[j] == x;
                    if j < p.len() {
                        assert(p[j] == x);
                    }
                    assert(x == values.first());
                }
                if p.contains(x) {
                    let j = choose|j: int| 0 <= j < p.len() && p[j] == x;
                    assert(p1[j] == x);
                }
                if x == values.first() {
                    assert(p1[p.len() as int] == x);
                }
            }
        }
    }
}

/// Folding keeps a duplicate-free sequence duplicate-free.
pub proof fn lemma_insert_missing_no_dups(p: Seq<u64>, values: Seq<u64>)
    requires
        no_dups(p),
    ensures
        no_dups(insert_missing(p, values)),
    decreases values.len(),
{
    if values.len() > 0 {
        let p1 = if p.contains(values.first()) {
            p
        } else {
            p.push(values.first())
        };
        assert(no_dups(p1)) by {
            if !p.contains(values.first()) {
                assert(forall|i: int| 0 <= i < p.len() ==> p1[i] == p[i]);
            }
        }
        lemma_insert_missing_no_dups(p1, values.drop_first());
    }
}

/// Folding changes nothing exactly when every value is already present.
pub proof fn lemma_insert_missing_unchanged(p: Seq<u64>, values: Seq<u64>)
    ensures
        insert_missing(p, values) == p <==> (forall|j: int|
            0 <= j < values.len() ==> p.contains(#[trigger] values[j])),
    decreases values.len(),
{
    if values.len() > 0 {
        if p.contains(values.first()) {
            lemma_insert_missing_unchanged(p, values.drop_first());
            assert(forall|j: int| 1 <= j < values.len() ==> values.drop_first()[j - 1] == values[j]);
            assert(values.first() == values[0]);
            if insert_missing(p, values) == p {
                assert(forall|j: int| 0 <= j < values.len() ==> p.contains(#[trigger] values[j]))
                    by {
                    assert(forall|j: int|
                        1 <= j < values.len() ==> p.contains(#[trigger] values.drop_first()[j - 1]));
                }
            }
        } else {
            let p1 = p.push(values.first());
            assert(insert_missing(p, values) == insert_missing(p1, values.drop_first()));
            lemma_insert_missing_len(p1, values.drop_first());
            assert(insert_missing(p1, values.drop_first()).len() >= p1.len() > p.len());
            assert(!p.contains(values[0]));
        }
    }
}

/// Folding never shortens the sequence.
pub proof fn lemma_insert_missing_len(p: Seq<u64>, values: Seq<u64>)
    ensures
        insert_missing(p, values).len() >= p.len(),
    decreases values.len(),
{
    if values.len() > 0 {
        let p1 = if p.contains(values.first()) {
            p
        } else {
            p.push(values.first())
        };
        lemma_insert_missing_len(p1, values.drop_first());
    }
}

/// Folding keeps the original values in place: the original sequence is a
/// prefix of the fold, which is never shorter.
pub proof fn lemma_insert_missing_prefix(p: Seq<u64>, values: Seq<u64>)
    ensures
        insert_missing(p, values).len() >= p.len(),
        forall|j: int| 0 <= j < p.len() ==> insert_missing(p, values)[j] == p[j],
    decreases values.len(),
{
    if values.len() > 0 {
        let p1 = if p.contains(values.first()) {
            p
        } else {
            p.push(values.first())
        };
        lemma_insert_missing_prefix(p1, values.drop_first());
        assert(forall|j: int| 0 <= j < p.len() ==> p1[j] == p[j]);
    }
}

/// Fan-out: a value that no neighbor holds pending changes every neighbor,
/// so the replication plan for it covers all of them, each entry carrying
/// that neighbor's pending set extended by the value.
pub proof fn lemma_plan_fresh_value(ns: Seq<Neighbor>, v: u64)
    requires
        forall|i: int| 0 <= i < ns.len() ==> !(#[trigger] ns[i]).pending@.contains(v),
    ensures
        replication_plan(ns, seq![v]).len() == ns.len(),
        forall|k: int|
            0 <= k < ns.len() ==> replication_plan(ns, seq![v])[k] == ((#[trigger] ns[k]).node_id@,
            ns[k].pending@.push(v)),
    decreases ns.len(),
{
    if ns.len() > 0 {
        assert(forall|i: int| 0 <= i < ns.drop_last().len() ==> ns.drop_last()[i] == ns[i]);
        lemma_plan_fresh_value(ns.drop_last(), v);
        let n = ns.last();
        assert(seq![v][0] == v);
        assert(!n.pending@.contains(v));
        assert(pending_changed(n, seq![v]));
        lemma_insert_missing_singleton(n.pending@, v);
    }
}

/// Every entry of a replication plan carries every folded value.
pub proof fn lemma_plan_carries_values(ns: Seq<Neighbor>, values: Seq<u64>)
    ensures
        forall|k: int, j: int|
            0 <= k < replication_plan(ns, values).len() && 0 <= j < values.len()
                ==> (#[trigger] replication_plan(ns, values)[k]).1.contains(#[trigger] values[j]),
    decreases ns.len(),
{
    if ns.len() > 0 {
        lemma_plan_carries_values(ns.drop_last(), values);
        let n = ns.last();
        let rest = replication_plan(ns.drop_last(), values);
        if pending_changed(n, values) {
            let plan = replication_plan(ns, values);
            assert forall|k: int, j: int|
                0 <= k < plan.len() && 0 <= j < values.len() implies (
            #[trigger] plan[k]).1.contains(#[trigger] values[j]) by {
                if k == plan.len() - 1 {
                    lemma_insert_missing_contains(n.pending@, values, values[j]);
                } else {
                    assert(plan[k] == rest[k]);
                }
            }
        }
    }
}

/// Folding the same values a second time changes nothing: replication is
/// idempotent.
pub proof fn lemma_insert_missing_idempotent(p: Seq<u64>, values: Seq<u64>)
    ensures
        insert_missing(insert_missing(p, values), values) == insert_missing(p, values),
{
    let q = insert_missing(p, values);
    assert forall|j: int| 0 <= j < values.len() implies q.contains(#[trigger] values[j]) by {
        lemma_insert_missing_contains(p, values, values[j]);
    }
    lemma_insert_missing_unchanged(q, values);
}

/// The gossip state of one node: every value it has seen, and per neighbor
/// the values that neighbor has not acknowledged yet.
#[derive(Debug)]
pub struct State {
    pub seen: Vec<u64>,
    pub neighbors: Vec<Neighbor>,
}

impl Default for State {
    /// The state of a node at start: nothing seen, no neighbors.
    fn default() -> (s: State)
        ensures
            s.seen@.len() == 0,
            s.neighbors@.len() == 0,
            s.wf(),
    {
        State { seen: Vec::new(), neighbors: Vec::new() }
    }
}

impl State {
    /// The state invariant: no value is recorded twice, neighbor ids are
    /// unique, and every pending value has been seen.
    pub open spec fn wf(self) -> bool {
        &&& no_dups(self.seen@)
        &&& (forall|i: int|
            0 <= i < self.neighbors@.len() ==> no_dups(
                (#[trigger] self.neighbors@[i]).pending@,
            ))
        &&& (forall|i: int, k: int|
            0 <= i < self.neighbors@.len() && 0 <= k < self.neighbors@[i].pending@.len()
                ==> self.seen@.contains(#[trigger] self.neighbors@[i].pending@[k]))
        &&& (forall|i: int, j: int|
            0 <= i < j < self.neighbors@.len() ==> (#[trigger] self.neighbors@[i]).node_id@ != (
            #[trigger] self.neighbors@[j]).node_id@)
    }

    /// Whether a neighbor with the given id is configured.
    pub open spec fn has_neighbor(self, id: Seq<char>) -> bool {
        exists|i: int|
            0 <= i < self.neighbors@.len() && (#[trigger] self.neighbors@[i]).node_id@ == id
    }

    /// The position of the neighbor with the given id, if any.
    fn find_neighbor(&self, id: &str) -> (r: Option<usize>)
        ensures
            r matches Some(i) ==> i < self.neighbors@.len() && self.neighbors@[i as int].node_id@
                == id@,
            r is None ==> !self.has_neighbor(id@),
    {
        let mut i: usize = 0;
        while i < self.neighbors.len()
            invariant
                i <= self.neighbors@.len(),
                forall|j: int| 0 <= j < i ==> (#[trigger] self.neighbors@[j]).node_id@ != id@,
            decreases self.neighbors@.len() - i,
        {
            if str_eq(self.neighbors[i].node_id.as_str(), id) {
                return Some(i);
            }
            i = i + 1;
        }
        None
    }

    /// Adds `neighbors` to the set of neighbors this node replicates
    /// broadcast values to.  A neighbor not seen before starts with an empty
    /// pending set; the pending set of an already-known neighbor is kept,
    /// never wiped.
    pub fn add_neighbors(&mut self, neighbors: &Vec<String>)
        requires
            old(self).wf(),
        ensures
            final(self).wf(),
            final(self).seen == old(self).seen,
            old(self).neighbors@.len() <= final(self).neighbors@.len(),
            forall|i: int|
                0 <= i < old(self).neighbors@.len() ==> final(self).neighbors@[i] == old(self).neighbors@[i],
            forall|k: int|
                0 <= k < neighbors@.len() ==> final(self).has_neighbor(
                    (#[trigger] neighbors@[k])@,
                ),
            forall|i: int|
                old(self).neighbors@.len() <= i < final(self).neighbors@.len() ==> {
                    &&& (#[trigger] final(self).neighbors@[i]).pending@.len() == 0
                    &&& !old(self).has_neighbor(final(self).neighbors@[i].node_id@)
                    &&& exists|k: int|
                        0 <= k < neighbors@.len() && (#[trigger] neighbors@[k])@ == final(self).neighbors@[i].node_id@
                },
    {
        let mut k: usize = 0;
        while k < neighbors.len()
            invariant
                k <= neighbors@.len(),
                self.wf(),
                self.seen == old(self).seen,
                old(self).neighbors@.len() <= self.neighbors@.len(),
                forall|i: int|
                    0 <= i < old(self).neighbors@.len() ==> self.neighbors@[i] == old(self).neighbors@[i],
                forall|k2: int|
                    0 <= k2 < k ==> self.has_neighbor((#[trigger] neighbors@[k2])@),
                forall|i: int|
                    old(self).neighbors@.len() <= i < self.neighbors@.len() ==> {
                        &&& (#[trigger] self.neighbors@[i]).pending@.len() == 0
                        &&& !old(self).has_neighbor(self.neighbors@[i].node_id@)
                        &&& exists|k2: int|
                            0 <= k2 < neighbors@.len() && (#[trigger] neighbors@[k2])@
                                == self.neighbors@[i].node_id@
                    },
            decreases neighbors@.len() - k,
        {
            let id = &neighbors[k];
            let found = self.find_neighbor(id.as_str());
            if found.is_none() {
                let ghost pre = self.neighbors@;
                self.neighbors.push(Neighbor { node_id: id.clone(), pending: Vec::new() });
                proof {
                    assert(self.neighbors@[pre.len() as int].node_id@ == neighbors@[k as int]@);
                    assert(forall|i: int| 0 <= i < pre.len() ==> self.neighbors@[i] == pre[i]);
                }
            }
            k = k + 1;
        }
    }

    /// Removes `values` from the pending set of the neighbor `node_id`:
    /// that neighbor has acknowledged them.  Every other neighbor's pending
    /// set, and the set of seen values, are untouched.
    pub fn ack(&mut self, node_id: &str, values: &Vec<u64>)
        requires
            old(self).wf(),
        ensures
            final(self).wf(),
            final(self).seen == old(self).seen,
            final(self).neighbors@.len() == old(self).neighbors@.len(),
            forall|i: int|
                0 <= i < old(self).neighbors@.len() && old(self).neighbors@[i].node_id@ == node_id@
                    ==> (#[trigger] final(self).neighbors@[i]).node_id == old(self).neighbors@[i].node_id && final(self).neighbors@[i].pending@ == remove_values(
                    old(self).neighbors@[i].pending@,
                    values@,
                ),
            forall|i: int|
                0 <= i < old(self).neighbors@.len() && old(self).neighbors@[i].node_id@ != node_id@
                    ==> (#[trigger] final(self).neighbors@[i]) == old(self).neighbors@[i],
    {
        let found = self.find_neighbor(node_id);
        if let Some(i) = found {
            let ghost old_p = self.neighbors@[i as int].pending@;
            let mut kept: Vec<u64> = Vec::new();
            let mut k: usize = 0;
            while k < self.neighbors[i].pending.len()
                invariant
                    i < self.neighbors@.len(),
                    self == old(self),
                    k <= old_p.len(),
                    old_p == self.neighbors@[i as int].pending@,
                    kept@ == remove_values(old_p.subrange(0, k as int), values@),
                    no_dups(kept@),
                    forall|j: int|
                        0 <= j < kept@.len() ==> old_p.subrange(0, k as int).contains(
                            #[trigger] kept@[j],
                        ),
                decreases old_p.len() - k,
            {
                let v = self.neighbors[i].pending[k];
                proof {
                    assert(old_p.subrange(0, k + 1 as int).drop_last() =~= old_p.subrange(
                        0,
                        k as int,
                    ));
                    assert(old_p.subrange(0, k + 1 as int).last() == v);
                }
                if !contains_value(values, v) {
                    proof {
                        assert(!kept@.contains(v)) by {
                            if kept@.contains(v) {
                                let j = choose|j: int| 0 <= j < kept@.len() && kept@[j] == v;
                                assert(old_p.subrange(0, k as int).contains(kept@[j]));
                                let m = choose|m: int|
                                    0 <= m < k && old_p.subrange(0, k as int)[m] == v;
                                assert(old_p[m] == v && old_p[k as int] == v);
                            }
                        }
                        assert(forall|j: int|
                            0 <= j < kept@.len() ==> old_p.subrange(0, k + 1 as int).contains(
                                #[trigger] kept@[j],
                            ));
                        assert(old_p.subrange(0, k + 1 as int)[k as int] == v);
                    }
                    kept.push(v);
                }
                k = k + 1;
            }
            proof {
                assert(old_p.subrange(0, old_p.len() as int) =~= old_p);
            }
            let id_clone = self.neighbors[i].node_id.clone();
            let ghost pre = self.neighbors@;
            self.neighbors[i] = Neighbor { node_id: id_clone, pending: kept };
            proof {
                assert(forall|j: int|
                    0 <= j < pre.len() && j != i ==> self.neighbors@[j] == pre[j]);
                assert forall|ii: int, kk: int|
                    0 <= ii < self.neighbors@.len() && 0 <= kk
                        < self.neighbors@[ii].pending@.len() implies self.seen@.contains(
                    #[trigger] self.neighbors@[ii].pending@[kk],
                ) by {
                    if ii == i {
                        let x = self.neighbors@[ii].pending@[kk];
                        assert(old_p.contains(x));
                    }
                }
            }
        }
    }

    /// Records one broadcast value.  A value seen before changes nothing and
    /// causes no replication traffic.  A new value enters the seen set and
    /// every neighbor's pending set at once, and the result plans a
    /// replication to every neighbor, carrying that neighbor's full updated
    /// pending set.
    pub fn add_seen(&mut self, value: u64) -> (r: Vec<Neighbor>)
        requires
            old(self).wf(),
        ensures
            final(self).wf(),
            old(self).seen@.contains(value) ==> *final(self) == *old(self) && r@.len() == 0,
            !old(self).seen@.contains(value) ==> {
                &&& final(self).seen@ == old(self).seen@.push(value)
                &&& final(self).neighbors@.len() == old(self).neighbors@.len()
                &&& (forall|i: int|
                    0 <= i < old(self).neighbors@.len() ==> (
                    #[trigger] final(self).neighbors@[i]).node_id == old(
                        self,
                    ).neighbors@[i].node_id && final(self).neighbors@[i].pending@ == old(
                        self,
                    ).neighbors@[i].pending@.push(value))
                &&& r@.len() == replication_plan(old(self).neighbors@, seq![value]).len()
                &&& (forall|k: int|
                    0 <= k < r@.len() ==> (#[trigger] r@[k])@ == replication_plan(
                        old(self).neighbors@,
                        seq![value],
                    )[k])
            },
    {
        if contains_value(&self.seen, value) {
            return Vec::new();
        }
        self.seen.push(value);
        let ghost old_ns = old(self).neighbors@;
        let mut r: Vec<Neighbor> = Vec::new();
        let mut i: usize = 0;
        while i < self.neighbors.len()
            invariant
                i <= old_ns.len(),
                self.neighbors@.len() == old_ns.len(),
                self.seen@ == old(self).seen@.push(value),
                forall|j: int| i <= j < old_ns.len() ==> self.neighbors@[j] == old_ns[j],
                forall|j: int|
                    0 <= j < i ==> (#[trigger] self.neighbors@[j]).node_id == old_ns[j].node_id
                        && self.neighbors@[j].pending@ == old_ns[j].pending@.push(value),
                r@.len() == i,
                forall|k: int|
                    0 <= k < i ==> (#[trigger] r@[k])@ == (
                        old_ns[k].node_id@,
                        old_ns[k].pending@.push(value),
                    ),
            decreases old_ns.len() - i,
        {
            let id_c = self.neighbors[i].node_id.clone();
            let mut pending = clone_values(&self.neighbors[i].pending);
            pending.push(value);
            r.push(Neighbor { node_id: id_c.clone(), pending: clone_values(&pending) });
            self.neighbors[i] = Neighbor { node_id: id_c, pending };
            i = i + 1;
        }
        proof {
            assert forall|i2: int| 0 <= i2 < old_ns.len() implies !(
            #[trigger] old_ns[i2]).pending@.contains(value) by {
                if old_ns[i2].pending@.contains(value) {
                    let k = choose|k: int|
                        0 <= k < old_ns[i2].pending@.len() && old_ns[i2].pending@[k] == value;
                    assert(old(self).seen@.contains(old_ns[i2].pending@[k]));
                }
            }
            lemma_plan_fresh_value(old_ns, value);
            assert forall|ii: int, kk: int|
                0 <= ii < self.neighbors@.len() && 0 <= kk
                    < self.neighbors@[ii].pending@.len() implies self.seen@.contains(
                #[trigger] self.neighbors@[ii].pending@[kk],
            ) by {
                let x = self.neighbors@[ii].pending@[kk];
                if kk < old_ns[ii].pending@.len() {
                    assert(x == old_ns[ii].pending@[kk]);
                    assert(old(self).seen@.contains(x));
                    let m = choose|m: int|
                        0 <= m < old(self).seen@.len() && old(self).seen@[m] == x;
                    assert(self.seen@[m] == x);
                } else {
                    assert(x == value);
                    assert(self.seen@[old(self).seen@.len() as int] == value);
                }
            }
        }
        r
    }

    /// Records every value of a replication.  Each value joins the seen set
    /// if new, and every neighbor's pending set where not already pending;
    /// the result plans a replication to each neighbor whose pending set
    /// changed, carrying that neighbor's full updated pending set.
    pub fn add_seen_all(&mut self, values: &Vec<u64>) -> (r: Vec<Neighbor>)
        requires
            old(self).wf(),
        ensures
            final(self).wf(),
            final(self).seen@ == insert_missing(old(self).seen@, values@),
            final(self).neighbors@.len() == old(self).neighbors@.len(),
            forall|i: int|
                0 <= i < old(self).neighbors@.len() ==> (
                #[trigger] final(self).neighbors@[i]).node_id == old(self).neighbors@[i].node_id
                    && final(self).neighbors@[i].pending@ == insert_missing(
                    old(self).neighbors@[i].pending@,
                    values@,
                ),
            r@.len() == replication_plan(old(self).neighbors@, values@).len(),
            forall|k: int|
                0 <= k < r@.len() ==> (#[trigger] r@[k])@ == replication_plan(
                    old(self).neighbors@,
                    values@,
                )[k],
    {
        let ghost old_seen = old(self).seen@;
        let ghost old_ns = old(self).neighbors@;

        let mut vi: usize = 0;
        while vi < values.len()
            invariant
                vi <= values@.len(),
                self.neighbors == old(self).neighbors,
                self.seen@ == insert_missing(old_seen, values@.subrange(0, vi as int)),
                no_dups(self.seen@),
            decreases values@.len() - vi,
        {
            let v = values[vi];
            proof {
                assert(values@.subrange(0, vi + 1 as int) =~= values@.subrange(
                    0,
                    vi as int,
                ).push(v));
                lemma_insert_missing_push(old_seen, values@.subrange(0, vi as int), v);
            }
            if !contains_value(&self.seen, v) {
                self.seen.push(v);
            }
            vi = vi + 1;
        }
        proof {
            assert(values@.subrange(0, values@.len() as int) =~= values@);
        }

        let mut r: Vec<Neighbor> = Vec::new();
        let mut i: usize = 0;
        while i < self.neighbors.len()
            invariant
                i <= old_ns.len(),
                self.neighbors@.len() == old_ns.len(),
                self.seen@ == insert_missing(old_seen, values@),
                no_dups(self.seen@),
                forall|j: int| i <= j < old_ns.len() ==> self.neighbors@[j] == old_ns[j],
                forall|j: int|
                    0 <= j < i ==> (#[trigger] self.neighbors@[j]).node_id == old_ns[j].node_id
                        && self.neighbors@[j].pending@ == insert_missing(
                        old_ns[j].pending@,
                        values@,
                    ),
                r@.len() == replication_plan(old_ns.subrange(0, i as int), values@).len(),
                forall|k: int|
                    0 <= k < r@.len() ==> (#[trigger] r@[k])@ == replication_plan(
                        old_ns.subrange(0, i as int),
                        values@,
                    )[k],
            decreases old_ns.len() - i,
        {
            let ghost old_p = old_ns[i as int].pending@;
            let mut pending = clone_values(&self.neighbors[i].pending);
            let mut changed = false;
            let mut vi2: usize = 0;
            while vi2 < values.len()
                invariant
                    vi2 <= values@.len(),
                    pending@ == insert_missing(old_p, values@.subrange(0, vi2 as int)),
                    pending@.len() >= old_p.len(),
                    changed == (pending@.len() > old_p.len()),
                decreases values@.len() - vi2,
            {
                let v = values[vi2];
                proof {
                    assert(values@.subrange(0, vi2 + 1 as int) =~= values@.subrange(
                        0,
                        vi2 as int,
                    ).push(v));
                    lemma_insert_missing_push(old_p, values@.subrange(0, vi2 as int), v);
                }
                if !contains_value(&pending, v) {
                    pending.push(v);
                    changed = true;
                }
                vi2 = vi2 + 1;
            }
            proof {
                assert(pending@ == insert_missing(old_p, values@));
                lemma_insert_missing_unchanged(old_p, values@);
                lemma_insert_missing_prefix(old_p, values@);
                if !changed {
                    assert(pending@ =~= old_p);
                }
                assert(changed == pending_changed(old_ns[i as int], values@));
                assert(old_ns.subrange(0, i + 1 as int).drop_last() =~= old_ns.subrange(
                    0,
                    i as int,
                ));
                assert(old_ns.subrange(0, i + 1 as int).last() == old_ns[i as int]);
            }
            if changed {
                let id_c = self.neighbors[i].node_id.clone();
                r.push(Neighbor { node_id: id_c.clone(), pending: clone_values(&pending) });
                self.neighbors[i] = Neighbor { node_id: id_c, pending };
            }
            i = i + 1;
        }
        proof {
            assert(old_ns.subrange(0, old_ns.len() as int) =~= old_ns);
            assert forall|ii: int|
                0 <= ii < self.neighbors@.len() implies no_dups(
                (#[trigger] self.neighbors@[ii]).pending@,
            ) by {
                lemma_insert_missing_no_dups(old_ns[ii].pending@, values@);
            }
            assert forall|ii: int, kk: int|
                0 <= ii < self.neighbors@.len() && 0 <= kk
                    < self.neighbors@[ii].pending@.len() implies self.seen@.contains(
                #[trigger] self.neighbors@[ii].pending@[kk],
            ) by {
                let x = self.neighbors@[ii].pending@[kk];
                lemma_insert_missing_contains(old_ns[ii].pending@, values@, x);
                assert(old_ns[ii].pending@.contains(x) || values@.contains(x));
                if old_ns[ii].pending@.contains(x) {
                    let m = choose|m: int|
                        0 <= m < old_ns[ii].pending@.len() && old_ns[ii].pending@[m] == x;
                    assert(old_seen.contains(old_ns[ii].pending@[m]));
                }
                lemma_insert_missing_contains(old_seen, values@, x);
            }
        }
        r
    }

    /// Retrieves the values already seen by this node.
    pub fn seen(&self) -> (r: Vec<u64>)
        ensures
            r@ == self.seen@,
    {
        clone_values(&self.seen)
    }
}

} // verus!
