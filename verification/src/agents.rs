//! The agents heard of on the bus: one report each, by name.

use crate::bus::{AgentSnapshot, AgentView};
use crate::text::{chars_of, same_text};
use vstd::prelude::*;

verus! {

/// Whether one name comes before another, character by character.
pub open spec fn precedes(a: Seq<char>, b: Seq<char>) -> bool
    decreases a.len(),
{
    if b.len() == 0 {
        false
    } else if a.len() == 0 {
        true
    } else if a[0] != b[0] {
        (a[0] as int) < (b[0] as int)
    } else {
        precedes(a.subrange(1, a.len() as int), b.subrange(1, b.len() as int))
    }
}

pub(crate) proof fn lemma_precedes_irreflexive(a: Seq<char>)
    ensures
        !precedes(a, a),
    decreases a.len(),
{
    if a.len() > 0 {
        lemma_precedes_irreflexive(a.subrange(1, a.len() as int));
    }
}

proof fn lemma_precedes_total(a: Seq<char>, b: Seq<char>)
    requires
        a != b,
    ensures
        precedes(a, b) || precedes(b, a),
    decreases a.len(),
{
    if a.len() > 0 && b.len() > 0 && a[0] == b[0] {
        let x = a.subrange(1, a.len() as int);
        let y = b.subrange(1, b.len() as int);
        if x == y {
            assert(a =~= seq![a[0]] + x);
            assert(b =~= seq![b[0]] + y);
        }
        lemma_precedes_total(x, y);
    } else if a.len() == 0 && b.len() == 0 {
        assert(a =~= b);
    }
}

proof fn lemma_precedes_transitive(a: Seq<char>, b: Seq<char>, c: Seq<char>)
    requires
        precedes(a, b),
        precedes(b, c),
    ensures
        precedes(a, c),
    decreases a.len(),
{
    if a.len() > 0 && a[0] == b[0] && b[0] == c[0] {
        lemma_precedes_transitive(
            a.subrange(1, a.len() as int),
            b.subrange(1, b.len() as int),
            c.subrange(1, c.len() as int),
        );
    }
}

/// Compares two names.
pub fn name_precedes(a: &str, b: &str) -> (r: bool)
    ensures
        r == precedes(a@, b@),
{
    let x = chars_of(a);
    let y = chars_of(b);
    let n: usize = x.len();
    let m: usize = y.len();
    let mut i: usize = 0;
    assert(x@.subrange(0, n as int) =~= x@);
    assert(y@.subrange(0, m as int) =~= y@);
    while i < n && i < m
        invariant
            i <= n,
            i <= m,
            n == x@.len(),
            m == y@.len(),
            precedes(x@, y@) == precedes(
                x@.subrange(i as int, n as int),
                y@.subrange(i as int, m as int),
            ),
            x@ == a@,
            y@ == b@,
        decreases n - i,
    {
        let ghost s = x@.subrange(i as int, n as int);
        let ghost t = y@.subrange(i as int, m as int);
        assert(s[0] == x@[i as int] && t[0] == y@[i as int]);
        if x[i] != y[i] {
            return x[i] < y[i];
        }
        assert(s.subrange(1, s.len() as int) =~= x@.subrange(i + 1, n as int));
        assert(t.subrange(1, t.len() as int) =~= y@.subrange(i + 1, m as int));
        i = i + 1;
    }
    i < m
}

/// The models of a list of reports.
pub open spec fn reports(v: Seq<AgentSnapshot>) -> Seq<AgentView> {
    v.map_values(|a: AgentSnapshot| a@)
}

/// Whether the names in a list of reports increase strictly.
pub open spec fn sorted(v: Seq<AgentView>) -> bool {
    forall|i: int, j: int|
        0 <= i < j < v.len() ==> precedes(#[trigger] v[i].agent_id, #[trigger] v[j].agent_id)
}

/// The last report of each agent in a list.
pub open spec fn by_name(v: Seq<AgentView>) -> Map<Seq<char>, AgentView>
    decreases v.len(),
{
    if v.len() == 0 {
        Map::empty()
    } else {
        by_name(v.drop_last()).insert(v.last().agent_id, v.last())
    }
}

pub(crate) proof fn lemma_by_name(v: Seq<AgentView>)
    requires
        sorted(v),
    ensures
        forall|i: int|
            0 <= i < v.len() ==> by_name(v).contains_key(#[trigger] v[i].agent_id) && by_name(
                v,
            )[v[i].agent_id] == v[i],
        forall|id: Seq<char>| #[trigger]
            by_name(v).contains_key(id) ==> exists|i: int|
                0 <= i < v.len() && #[trigger] v[i].agent_id == id,
    decreases v.len(),
{
    if v.len() > 0 {
        let w = v.drop_last();
        lemma_by_name(w);
        assert forall|i: int| 0 <= i < v.len() implies by_name(v).contains_key(
            #[trigger] v[i].agent_id,
        ) && by_name(v)[v[i].agent_id] == v[i] by {
            if i < w.len() {
                assert(w[i] == v[i]);
                lemma_precedes_irreflexive(v[i].agent_id);
                assert(precedes(v[i].agent_id, v[v.len() - 1].agent_id));
            }
        }
        assert forall|id: Seq<char>| #[trigger] by_name(v).contains_key(id) implies exists|i: int|
            0 <= i < v.len() && #[trigger] v[i].agent_id == id by {
            if id == v.last().agent_id {
                assert(v[v.len() - 1].agent_id == id);
            } else {
                assert(by_name(w).contains_key(id));
                let i = choose|i: int| 0 <= i < w.len() && #[trigger] w[i].agent_id == id;
                assert(v[i].agent_id == id);
            }
        }
    }
}

/// Two sorted lists of reports that agree agent by agent hold the same map.
proof fn lemma_inserted(v: Seq<AgentView>, w: Seq<AgentView>, x: AgentView)
    requires
        sorted(v),
        sorted(w),
        w.contains(x),
        forall|y: AgentView| #[trigger]
            w.contains(y) && y.agent_id != x.agent_id ==> v.contains(y),
        forall|y: AgentView| #[trigger]
            v.contains(y) && y.agent_id != x.agent_id ==> w.contains(y),
    ensures
        by_name(w) == by_name(v).insert(x.agent_id, x),
{
    lemma_by_name(v);
    lemma_by_name(w);
    let a = by_name(w);
    let b = by_name(v).insert(x.agent_id, x);
    let px = choose|i: int| 0 <= i < w.len() && w[i] == x;
    assert(a[w[px].agent_id] == x);
    assert forall|id: Seq<char>| #![trigger a.contains_key(id)] a.contains_key(id)
        == b.contains_key(id) && (a.contains_key(id) ==> a[id] == b[id]) by {
        if id != x.agent_id {
            if a.contains_key(id) {
                let j = choose|j: int| 0 <= j < w.len() && #[trigger] w[j].agent_id == id;
                assert(w.contains(w[j]));
                let i = choose|i: int| 0 <= i < v.len() && v[i] == w[j];
                assert(by_name(v)[v[i].agent_id] == v[i]);
            }
            if b.contains_key(id) {
                let i = choose|i: int| 0 <= i < v.len() && #[trigger] v[i].agent_id == id;
                assert(v.contains(v[i]));
                let j = choose|j: int| 0 <= j < w.len() && w[j] == v[i];
                assert(a[w[j].agent_id] == w[j]);
            }
        }
    }
    assert(a =~= b);
}

proof fn lemma_updated(v: Seq<AgentView>, w: Seq<AgentView>, p: int, x: AgentView)
    requires
        sorted(v),
        0 <= p < v.len(),
        v[p].agent_id == x.agent_id,
        w == v.update(p, x),
    ensures
        sorted(w),
        w.contains(x),
        forall|y: AgentView| #[trigger]
            w.contains(y) && y.agent_id != x.agent_id ==> v.contains(y),
        forall|y: AgentView| #[trigger]
            v.contains(y) && y.agent_id != x.agent_id ==> w.contains(y),
{
    assert(w[p] == x);
    assert forall|i: int, j: int| 0 <= i < j < w.len() implies precedes(
        #[trigger] w[i].agent_id,
        #[trigger] w[j].agent_id,
    ) by {
        assert(w[i].agent_id == v[i].agent_id);
        assert(w[j].agent_id == v[j].agent_id);
    }
    assert forall|y: AgentView| #[trigger] w.contains(y) && y.agent_id
        != x.agent_id implies v.contains(y) by {
        let j = choose|j: int| 0 <= j < w.len() && w[j] == y;
        assert(v[j] == y);
    }
    assert forall|y: AgentView| #[trigger] v.contains(y) && y.agent_id
        != x.agent_id implies w.contains(y) by {
        let i = choose|i: int| 0 <= i < v.len() && v[i] == y;
        assert(w[i] == y);
    }
}

proof fn lemma_placed(v: Seq<AgentView>, w: Seq<AgentView>, p: int, x: AgentView)
    requires
        sorted(v),
        0 <= p <= v.len(),
        forall|k: int| 0 <= k < p ==> precedes(#[trigger] v[k].agent_id, x.agent_id),
        p < v.len() ==> !precedes(v[p].agent_id, x.agent_id) && v[p].agent_id != x.agent_id,
        w == v.insert(p, x),
    ensures
        sorted(w),
        w.contains(x),
        forall|y: AgentView| #[trigger]
            w.contains(y) && y.agent_id != x.agent_id ==> v.contains(y),
        forall|y: AgentView| #[trigger]
            v.contains(y) && y.agent_id != x.agent_id ==> w.contains(y),
{
    assert(w[p] == x);
    assert forall|k: int| p <= k < v.len() implies precedes(
        x.agent_id,
        #[trigger] v[k].agent_id,
    ) by {
        lemma_precedes_total(x.agent_id, v[p].agent_id);
        if k > p {
            assert(precedes(v[p].agent_id, v[k].agent_id));
            lemma_precedes_transitive(x.agent_id, v[p].agent_id, v[k].agent_id);
        }
    }
    assert forall|i: int, j: int| 0 <= i < j < w.len() implies precedes(
        #[trigger] w[i].agent_id,
        #[trigger] w[j].agent_id,
    ) by {
        if i < p && j < p {
            assert(w[i] == v[i] && w[j] == v[j]);
        } else if i < p && j == p {
            assert(w[i] == v[i]);
        } else if i < p {
            assert(w[i] == v[i] && w[j] == v[j - 1]);
        } else if i == p {
            assert(w[j] == v[j - 1]);
        } else {
            assert(w[i] == v[i - 1] && w[j] == v[j - 1]);
        }
    }
    assert forall|y: AgentView| #[trigger] w.contains(y) && y.agent_id
        != x.agent_id implies v.contains(y) by {
        let j = choose|j: int| 0 <= j < w.len() && w[j] == y;
        if j < p {
            assert(v[j] == y);
        } else {
            assert(v[j - 1] == y);
        }
    }
    assert forall|y: AgentView| #[trigger] v.contains(y) && y.agent_id
        != x.agent_id implies w.contains(y) by {
        let i = choose|i: int| 0 <= i < v.len() && v[i] == y;
        if i < p {
            assert(w[i] == y);
        } else {
            assert(w[i + 1] == y);
        }
    }
}

/// The reports by agent, in the order of their names.
pub struct Agents {
    pub list: Vec<AgentSnapshot>,
}

impl View for Agents {
    type V = Seq<AgentView>;

    open spec fn view(&self) -> Seq<AgentView> {
        reports(self.list@)
    }
}

impl Agents {
    /// The names increase strictly, so each occurs once.
    pub open spec fn wf(&self) -> bool {
        sorted(self@)
    }

    /// No agent.
    pub fn new() -> (r: Agents)
        ensures
            r.wf(),
            r@ == Seq::<AgentView>::empty(),
    {
        let r = Agents { list: Vec::new() };
        assert(r@ =~= Seq::<AgentView>::empty());
        r
    }

    /// Puts a report in the place of the agent's earlier one.
    pub fn insert(&mut self, snap: AgentSnapshot)
        requires
            old(self).wf(),
        ensures
            final(self).wf(),
            by_name(final(self)@) == by_name(old(self)@).insert(snap@.agent_id, snap@),
    {
        let n: usize = self.list.len();
        let ghost v = self@;
        let mut p: usize = 0;
        while p < n && name_precedes(self.list[p].agent_id.as_str(), snap.agent_id.as_str())
            invariant
                p <= n,
                n == self.list@.len(),
                v == self@,
                forall|k: int| 0 <= k < p ==> precedes(#[trigger] v[k].agent_id, snap@.agent_id),
            decreases n - p,
        {
            assert(v[p as int] == self.list@[p as int]@);
            p = p + 1;
        }
        let ghost x = snap@;
        if p < n && same_text(self.list[p].agent_id.as_str(), snap.agent_id.as_str()) {
            assert(v[p as int] == self.list@[p as int]@);
            self.list.set(p, snap);
            let ghost w = self@;
            assert(w =~= v.update(p as int, x));
            proof {
                lemma_updated(v, w, p as int, x);
                lemma_inserted(v, w, x);
            }
        } else {
            if p < n {
                assert(v[p as int] == self.list@[p as int]@);
            }
            self.list.insert(p, snap);
            let ghost w = self@;
            assert(w =~= v.insert(p as int, x));
            proof {
                lemma_placed(v, w, p as int, x);
                lemma_inserted(v, w, x);
            }
        }
    }
}

proof fn lemma_without_last(v: Seq<AgentView>)
    requires
        sorted(v),
        v.len() > 0,
    ensures
        sorted(v.drop_last()),
        by_name(v.drop_last()) == by_name(v).remove(v.last().agent_id),
{
    let w = v.drop_last();
    let id = v.last().agent_id;
    assert forall|i: int, j: int| 0 <= i < j < w.len() implies precedes(
        #[trigger] w[i].agent_id,
        #[trigger] w[j].agent_id,
    ) by {
        assert(precedes(v[i].agent_id, v[j].agent_id));
    }
    lemma_by_name(w);
    if by_name(w).contains_key(id) {
        let i = choose|i: int| 0 <= i < w.len() && #[trigger] w[i].agent_id == id;
        assert(precedes(v[i].agent_id, v[v.len() - 1].agent_id));
        lemma_precedes_irreflexive(id);
    }
    assert(by_name(w) =~= by_name(v).remove(id));
}

/// There is one way to list agents by name: the listing is settled by which
/// agents there are and what each reported last.
pub proof fn law_listing_is_settled(u: Seq<AgentView>, v: Seq<AgentView>)
    requires
        sorted(u),
        sorted(v),
        by_name(u) == by_name(v),
    ensures
        u == v,
    decreases u.len(),
{
    lemma_by_name(u);
    lemma_by_name(v);
    if u.len() == 0 {
        if v.len() > 0 {
            assert(by_name(v).contains_key(v[0].agent_id));
        }
        assert(u =~= v);
    } else if v.len() == 0 {
        assert(by_name(u).contains_key(u[0].agent_id));
    } else {
        let m = u.len() - 1;
        let n = v.len() - 1;
        assert(by_name(v).contains_key(u[m].agent_id));
        assert(by_name(u).contains_key(v[n].agent_id));
        let j = choose|j: int| 0 <= j < v.len() && #[trigger] v[j].agent_id == u[m].agent_id;
        let i = choose|i: int| 0 <= i < u.len() && #[trigger] u[i].agent_id == v[n].agent_id;
        if u[m].agent_id != v[n].agent_id {
            assert(precedes(v[j].agent_id, v[n].agent_id));
            assert(precedes(u[i].agent_id, u[m].agent_id));
            lemma_precedes_transitive(u[m].agent_id, v[n].agent_id, u[m].agent_id);
            lemma_precedes_irreflexive(u[m].agent_id);
        }
        assert(u[m] == v[n]);
        lemma_without_last(u);
        lemma_without_last(v);
        law_listing_is_settled(u.drop_last(), v.drop_last());
        assert(u =~= u.drop_last().push(u.last()));
        assert(v =~= v.drop_last().push(v.last()));
    }
}

} // verus!
