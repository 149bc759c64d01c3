use std::collections::{HashMap, HashSet};
use vstd::prelude::*;
use vstd::std_specs::hash::{spec_hash_keys_iter, spec_keys_iter};
use vstd::std_specs::iter::IteratorSpec;

verus! {

broadcast use vstd::std_specs::hash::group_hash_axioms;

/// A graph of definitions (nodes, identified by `u64`) that produce and
/// consume values (also identified by `u64`).
///
/// Each node produces at most one value; a value may be consumed by many
/// nodes. A node `b` depends on a node `a` when `b` consumes the value that
/// `a` produces.
pub struct DepGraph {
    producers: HashMap<u64, u64>,
    consumers: HashMap<u64, HashSet<u64>>,
}

impl DepGraph {
    /// The value that each producing node produces.
    pub closed spec fn producers(&self) -> Map<u64, u64> {
        self.producers@
    }

    /// For each consumed value, the nodes that consume it.
    pub closed spec fn consumers(&self) -> Map<u64, Set<u64>> {
        Map::new(|v: u64| self.consumers@.contains_key(v), |v: u64| self.consumers@[v]@)
    }

    /// The nodes that consume `value` (empty when nobody does).
    pub open spec fn consumers_of(&self, value: u64) -> Set<u64> {
        if self.consumers().contains_key(value) {
            self.consumers()[value]
        } else {
            Set::empty()
        }
    }

    /// Every recorded set of consumers is finite and non-empty.
    pub open spec fn wf(&self) -> bool {
        &&& self.consumers().dom().finite()
        &&& forall|v: u64| #[trigger]
            self.consumers().contains_key(v) ==> self.consumers()[v].finite()
                && !self.consumers()[v].is_empty()
    }

    /// `b` consumes the value that `a` produces.
    pub open spec fn edge(&self, a: u64, b: u64) -> bool {
        &&& self.producers().contains_key(a)
        &&& self.consumers_of(self.producers()[a]).contains(b)
    }

    /// `p` is a non-empty walk along edges that touches no node of `avoid`.
    pub open spec fn is_path(&self, p: Seq<u64>, avoid: Set<u64>) -> bool {
        &&& p.len() > 0
        &&& forall|i: int| 0 <= i < p.len() ==> !avoid.contains(#[trigger] p[i])
        &&& forall|i: int| 0 <= i < p.len() - 1 ==> #[trigger] self.edge(p[i], p[i + 1])
    }

    /// `to` can be reached from `from` without passing through `avoid`.
    pub open spec fn reaches(&self, from: u64, to: u64, avoid: Set<u64>) -> bool {
        exists|p: Seq<u64>| #[trigger]
            self.is_path(p, avoid) && p[0] == from && p[p.len() - 1] == to
    }

    /// What an accumulator holds after `node` was invalidated into it: what
    /// it held before, and every node reachable from `node` through nodes it
    /// did not hold.
    pub open spec fn invalidated(&self, node: u64, accumulator: Set<u64>) -> Set<u64> {
        accumulator.union(Set::new(|n: u64| self.reaches(node, n, accumulator)))
    }

    /// An empty graph.
    pub fn new() -> (graph: DepGraph)
        ensures
            graph.wf(),
            graph.producers() == Map::<u64, u64>::empty(),
            graph.consumers() == Map::<u64, Set<u64>>::empty(),
    {
        let graph = DepGraph { producers: HashMap::new(), consumers: HashMap::new() };
        assert(graph.consumers() =~= Map::<u64, Set<u64>>::empty());
        graph
    }

    /// Records that `producer` produces `value`, and returns the nodes that
    /// consume `value`, each once.
    pub fn produce(&mut self, producer: u64, value: u64) -> (consumers: Vec<u64>)
        requires
            old(self).wf(),
        ensures
            final(self).wf(),
            final(self).producers() == old(self).producers().insert(producer, value),
            final(self).consumers() == old(self).consumers(),
            consumers@.to_set() == old(self).consumers_of(value),
            consumers@.no_duplicates(),
    {
        let consumers = match self.consumers.get(&value) {
            Some(set) => elements(set),
            None => Vec::new(),
        };
        self.producers.insert(producer, value);
        assert(consumers@.to_set() =~= old(self).consumers_of(value));
        consumers
    }

    /// Records that `consumer` consumes `value`.
    pub fn consume(&mut self, consumer: u64, value: u64)
        requires
            old(self).wf(),
        ensures
            final(self).wf(),
            final(self).producers() == old(self).producers(),
            final(self).consumers() == old(self).consumers().insert(
                value,
                old(self).consumers_of(value).insert(consumer),
            ),
    {
        let mut set = match self.consumers.remove(&value) {
            Some(set) => set,
            None => HashSet::new(),
        };
        set.insert(consumer);
        self.consumers.insert(value, set);
        assert(self.consumers() =~= old(self).consumers().insert(
            value,
            old(self).consumers_of(value).insert(consumer),
        ));
    }
}


impl DepGraph {
    /// The consumer sets left once `node` is forgotten: `node` leaves each
    /// set, and sets left empty are dropped.
    pub open spec fn pruned(&self, node: u64) -> Map<u64, Set<u64>> {
        Map::new(
            |v: u64| self.consumers().contains_key(v) && !self.consumers()[v].remove(node).is_empty(),
            |v: u64| self.consumers()[v].remove(node),
        )
    }

    /// Forgets `node`: it no longer produces anything, and it no longer
    /// consumes anything.
    pub fn remove(&mut self, node: u64)
        requires
            old(self).wf(),
        ensures
            final(self).wf(),
            final(self).producers() == old(self).producers().remove(node),
            final(self).consumers() == old(self).pruned(node),
    {
        self.producers.remove(&node);
        let ghost before = self.consumers();
        let ghost keys = spec_keys_iter(&self.consumers).remaining();
        let mut rebuilt: HashMap<u64, HashSet<u64>> = HashMap::new();
        for v in it: self.consumers.keys()
            invariant
                it.seq() == keys,
                keys.unref().to_set() == self.consumers@.dom(),
                before == self.consumers(),
                old(self).wf(),
                before == old(self).consumers(),
                forall|k: u64| #[trigger]
                    rebuilt@.contains_key(k) ==> {
                        &&& before.contains_key(k)
                        &&& rebuilt@[k]@ == before[k].remove(node)
                        &&& !before[k].remove(node).is_empty()
                    },
                forall|i: int|
                    0 <= i < it.index() && !before[*keys[i]].remove(node).is_empty()
                        ==> #[trigger] rebuilt@.contains_key(*keys[i]),
        {
            proof {
                assert(keys.unref()[it.index()] == *v);
                assert(keys.unref().to_set().contains(*v));
            }
            let set = self.consumers.get(v).unwrap();
            let kept = without(set, node);
            if !kept.is_empty() {
                rebuilt.insert(*v, kept);
            }
        }
        self.consumers = rebuilt;
        proof {
            assert forall|k: u64| #[trigger] old(self).pruned(node).contains_key(k)
                implies self.consumers@.contains_key(k) by {
                assert(keys.unref().to_set().contains(k));
                let i = choose|i: int| 0 <= i < keys.unref().len() && keys.unref()[i] == k;
                assert(*keys[i] == k);
            }
        }
        assert(self.consumers() =~= old(self).pruned(node));
        assert(self.consumers().dom() =~= self.consumers@.dom());
    }
}

impl DepGraph {
    /// Every node that consumes something, and `node`.
    spec fn universe(&self, node: u64) -> Set<u64> {
        self.consumers().dom().map(|v: u64| self.consumers()[v]).flatten().insert(node)
    }

    proof fn lemma_universe(&self, node: u64)
        requires
            self.wf(),
        ensures
            self.universe(node).finite(),
            forall|a: u64, b: u64| #[trigger] self.edge(a, b) ==> self.universe(node).contains(b),
    {
        let f = |v: u64| self.consumers()[v];
        let dom = self.consumers().dom();
        dom.lemma_map_finite(f);
        assert forall|s: Set<u64>| dom.map(f).contains(s) implies #[trigger] s.finite() by {
            let v = choose|v: u64| dom.contains(v) && f(v) == s;
        }
        dom.map(f).lemma_flatten_finite();
        assert forall|a: u64, b: u64| #[trigger] self.edge(a, b) implies self.universe(node).contains(
            b,
        ) by {
            let v = self.producers()[a];
            assert(dom.contains(v) && f(v) == self.consumers()[v]);
            assert(dom.map(f).contains(self.consumers()[v]));
        }
    }

    /// A walk that starts in `acc`, from which every edge out of a node of
    /// `acc` outside `avoid` leads back into `acc`, ends in `acc`.
    proof fn lemma_closed_walk(&self, p: Seq<u64>, avoid: Set<u64>, acc: Set<u64>)
        requires
            self.is_path(p, avoid),
            acc.contains(p[0]),
            forall|n: u64, c: u64|
                acc.contains(n) && !avoid.contains(n) && #[trigger] self.edge(n, c) ==> acc.contains(c),
        ensures
            acc.contains(p[p.len() - 1]),
        decreases p.len(),
    {
        if p.len() > 1 {
            let q = p.drop_last();
            assert(forall|i: int| 0 <= i < q.len() ==> q[i] == p[i]);
            assert(self.is_path(q, avoid));
            self.lemma_closed_walk(q, avoid, acc);
            let i = p.len() - 2;
            assert(self.edge(p[i], p[i + 1]));
        }
    }

    /// A walk that avoids `avoid` can be extended by an edge to a node
    /// outside `avoid`.
    proof fn lemma_extend_walk(&self, node: u64, n: u64, c: u64, avoid: Set<u64>)
        requires
            self.reaches(node, n, avoid),
            self.edge(n, c),
            !avoid.contains(c),
        ensures
            self.reaches(node, c, avoid),
    {
        let p = choose|p: Seq<u64>| #[trigger]
            self.is_path(p, avoid) && p[0] == node && p[p.len() - 1] == n;
        let q = p.push(c);
        assert(forall|i: int| 0 <= i < p.len() ==> q[i] == p[i]);
        assert(self.is_path(q, avoid));
    }

    /// Adds `node` to `accumulator`, and with it every node that depends on
    /// it, directly or not, as far as the nodes already in `accumulator`
    /// let the search through.
    pub fn invalidate(&mut self, node: u64, accumulator: &mut HashSet<u64>)
        requires
            old(self).wf(),
        ensures
            *final(self) == *old(self),
            final(accumulator)@ == old(self).invalidated(node, old(accumulator)@),
    {
        let ghost before = accumulator@;
        let ghost universe = self.universe(node);
        proof {
            self.lemma_universe(node);
            let p = seq![node];
            if !before.contains(node) {
                assert(self.is_path(p, before));
            }
        }
        let mut stack: Vec<u64> = Vec::new();
        stack.push(node);
        assert(stack@[0] == node);
        while stack.len() > 0
            invariant
                self.wf(),
                universe == self.universe(node),
                universe.finite(),
                forall|a: u64, b: u64| #[trigger] self.edge(a, b) ==> universe.contains(b),
                before.subset_of(accumulator@),
                forall|n: u64| #[trigger]
                    accumulator@.contains(n) && !before.contains(n) ==> self.reaches(node, n, before),
                forall|i: int|
                    0 <= i < stack@.len() ==> universe.contains(#[trigger] stack@[i]) && (before.contains(
                        stack@[i],
                    ) || self.reaches(node, stack@[i], before)),
                forall|n: u64, c: u64|
                    accumulator@.contains(n) && !before.contains(n) && #[trigger] self.edge(n, c)
                        ==> accumulator@.contains(c) || stack@.contains(c),
                accumulator@.contains(node) || stack@.contains(node),
            decreases universe.difference(accumulator@).len(), stack@.len(),
        {
            let ghost pending = stack@;
            let x = stack.pop().unwrap();
            assert(pending == stack@.push(x));
            if !accumulator.contains(&x) {
                let ghost seen = accumulator@;
                accumulator.insert(x);
                proof {
                    assert(universe.difference(seen).contains(x));
                    assert(universe.difference(accumulator@) =~= universe.difference(seen).remove(x));
                }
                let ghost popped = stack@;
                let mut next: Vec<u64> = Vec::new();
                match self.producers.get(&x) {
                    Some(value) => match self.consumers.get(value) {
                        Some(set) => {
                            next = elements(set);
                        },
                        None => {},
                    },
                    None => {},
                }
                assert(self.producers().contains_key(x) ==> next@.to_set() =~= self.consumers_of(
                    self.producers()[x],
                ));
                let ghost added = next@;
                stack.append(&mut next);
                proof {
                    assert forall|c: u64| #[trigger] self.edge(x, c) implies stack@.contains(c) by {
                        assert(added.to_set().contains(c));
                        let j = choose|j: int| 0 <= j < added.len() && added[j] == c;
                        assert(stack@[popped.len() + j] == c);
                    }
                    assert forall|i: int| 0 <= i < stack@.len() implies universe.contains(
                        #[trigger] stack@[i],
                    ) && (before.contains(stack@[i]) || self.reaches(node, stack@[i], before)) by {
                        if i >= popped.len() {
                            let c = stack@[i];
                            assert(added[i - popped.len()] == c);
                            assert(added.to_set().contains(c));
                            assert(self.edge(x, c));
                            if !before.contains(c) {
                                self.lemma_extend_walk(node, x, c, before);
                            }
                        } else {
                            assert(stack@[i] == popped[i]);
                            assert(pending[i] == popped[i]);
                        }
                    }
                    assert forall|n: u64, c: u64|
                        accumulator@.contains(n) && !before.contains(n) && #[trigger] self.edge(n, c)
                            implies accumulator@.contains(c) || stack@.contains(c) by {
                        if n != x && !accumulator@.contains(c) {
                            assert(pending.contains(c));
                            let j = choose|j: int| 0 <= j < pending.len() && pending[j] == c;
                            assert(j < popped.len());
                            assert(stack@[j] == c);
                        }
                    }
                    if !accumulator@.contains(node) {
                        let j = choose|j: int| 0 <= j < pending.len() && pending[j] == node;
                        assert(stack@[j] == node);
                    }
                }
            } else {
                proof {
                    assert forall|n: u64, c: u64|
                        accumulator@.contains(n) && !before.contains(n) && #[trigger] self.edge(n, c)
                            implies accumulator@.contains(c) || stack@.contains(c) by {
                        if !accumulator@.contains(c) {
                            let j = choose|j: int| 0 <= j < pending.len() && pending[j] == c;
                            assert(stack@[j] == c);
                        }
                    }
                    if !accumulator@.contains(node) {
                        let j = choose|j: int| 0 <= j < pending.len() && pending[j] == node;
                        assert(stack@[j] == node);
                    }
                    assert forall|i: int| 0 <= i < stack@.len() implies universe.contains(
                        #[trigger] stack@[i],
                    ) && (before.contains(stack@[i]) || self.reaches(node, stack@[i], before)) by {
                        assert(stack@[i] == pending[i]);
                    }
                }
            }
        }
        proof {
            assert forall|n: u64| #[trigger]
                self.invalidated(node, before).contains(n) implies accumulator@.contains(n) by {
                if !before.contains(n) {
                    let p = choose|p: Seq<u64>| #[trigger]
                        self.is_path(p, before) && p[0] == node && p[p.len() - 1] == n;
                    self.lemma_closed_walk(p, before, accumulator@);
                }
            }
        }
        assert(accumulator@ =~= self.invalidated(node, before));
    }
}

impl DepGraph {
    /// Invalidating a node that the accumulator does not hold yet adds the
    /// node itself, and the accumulator only ever grows.
    pub proof fn law_invalidate_adds_node(&self, node: u64, accumulator: Set<u64>)
        ensures
            self.invalidated(node, accumulator).contains(node),
            accumulator.subset_of(self.invalidated(node, accumulator)),
    {
        if !accumulator.contains(node) {
            assert(self.is_path(seq![node], accumulator));
        }
    }

    /// After an invalidation, everything that consumes what a newly
    /// invalidated node produces is invalidated too.
    pub proof fn law_invalidate_is_closed(&self, node: u64, accumulator: Set<u64>, n: u64, c: u64)
        requires
            self.invalidated(node, accumulator).contains(n),
            !accumulator.contains(n),
            self.edge(n, c),
        ensures
            self.invalidated(node, accumulator).contains(c),
    {
        if !accumulator.contains(c) {
            self.lemma_extend_walk(node, n, c, accumulator);
        }
    }

    /// Invalidating the same node a second time changes nothing.
    pub proof fn law_invalidate_idempotent(&self, node: u64, accumulator: Set<u64>)
        ensures
            self.invalidated(node, self.invalidated(node, accumulator)) == self.invalidated(
                node,
                accumulator,
            ),
    {
        let once = self.invalidated(node, accumulator);
        self.law_invalidate_adds_node(node, accumulator);
        assert forall|n: u64| !#[trigger] self.reaches(node, n, once) by {
            if self.reaches(node, n, once) {
                let p = choose|p: Seq<u64>| #[trigger]
                    self.is_path(p, once) && p[0] == node && p[p.len() - 1] == n;
                assert(!once.contains(p[0]));
            }
        }
        assert(self.invalidated(node, once) =~= once);
    }

    /// Consuming the same value a second time changes nothing: `before` is
    /// a graph, `once` is it after `consume(consumer, value)`, and `twice`
    /// is `once` after the same call again.
    pub proof fn law_consume_idempotent(
        before: DepGraph,
        once: DepGraph,
        twice: DepGraph,
        consumer: u64,
        value: u64,
    )
        requires
            once.producers() == before.producers(),
            once.consumers() == before.consumers().insert(
                value,
                before.consumers_of(value).insert(consumer),
            ),
            twice.producers() == once.producers(),
            twice.consumers() == once.consumers().insert(
                value,
                once.consumers_of(value).insert(consumer),
            ),
        ensures
            twice.producers() == once.producers(),
            twice.consumers() == once.consumers(),
    {
        assert(once.consumers_of(value).insert(consumer) =~= once.consumers_of(value));
        assert(twice.consumers() =~= once.consumers());
    }

    /// A node that consumes a value is among the nodes that producing the
    /// value returns, until it is removed: `consumed` is a graph after
    /// `consume(consumer, value)`, and producing `value` there returns
    /// `consumed.consumers_of(value)`; removing `consumer` takes it out.
    pub proof fn law_produce_returns_consumers(
        before: DepGraph,
        consumed: DepGraph,
        removed: DepGraph,
        consumer: u64,
        value: u64,
    )
        requires
            consumed.consumers() == before.consumers().insert(
                value,
                before.consumers_of(value).insert(consumer),
            ),
            removed.consumers() == consumed.pruned(consumer),
        ensures
            consumed.consumers_of(value).contains(consumer),
            forall|v: u64| !removed.consumers_of(v).contains(consumer),
    {
    }

    /// Once `node` is removed, it produces nothing, so invalidating it
    /// invalidates `node` alone; and no node reaches it any more.
    pub proof fn law_removed_node_is_alone(before: DepGraph, after: DepGraph, node: u64)
        requires
            after.producers() == before.producers().remove(node),
            after.consumers() == before.pruned(node),
        ensures
            after.invalidated(node, Set::empty()) == set![node],
            forall|m: u64, avoid: Set<u64>| m != node ==> !#[trigger] after.reaches(m, node, avoid),
    {
        assert forall|n: u64| #[trigger] after.reaches(node, n, Set::empty()) implies n == node by {
            let p = choose|p: Seq<u64>| #[trigger]
                after.is_path(p, Set::empty()) && p[0] == node && p[p.len() - 1] == n;
            if p.len() > 1 {
                let i: int = 0;
                assert(after.edge(p[i], p[i + 1]));
            }
        }
        assert(after.is_path(seq![node], Set::empty()));
        assert(after.invalidated(node, Set::empty()) =~= set![node]);
        assert forall|m: u64, avoid: Set<u64>| m != node implies !#[trigger] after.reaches(
            m,
            node,
            avoid,
        ) by {
            if after.reaches(m, node, avoid) {
                let p = choose|p: Seq<u64>| #[trigger]
                    after.is_path(p, avoid) && p[0] == m && p[p.len() - 1] == node;
                let k = p.len() - 1;
                assert(k > 0);
                let i: int = k - 1;
                assert(after.edge(p[i], p[i + 1]));
                assert(after.consumers_of(after.producers()[p[i]]).contains(node));
            }
        }
    }

    /// The nodes reachable from one of `ids`, `ids` among them.
    #[verifier::opaque]
    pub open spec fn closure(&self, ids: Set<u64>) -> Set<u64> {
        Set::new(|n: u64| exists|i: u64| ids.contains(i) && #[trigger] self.reaches(i, n, Set::empty()))
    }

    /// `set` holds everything that consumes what one of its nodes produces.
    pub open spec fn closed_under(&self, set: Set<u64>) -> bool {
        forall|a: u64, b: u64| set.contains(a) && #[trigger] self.edge(a, b) ==> set.contains(b)
    }

    /// `self` is `old` with the nodes of `removed` removed.
    pub closed spec fn without(&self, old: DepGraph, removed: Set<u64>) -> bool {
        &&& self.producers() == old.producers().remove_keys(removed)
        &&& forall|v: u64| #[trigger] self.consumers_of(v) == old.consumers_of(v).difference(removed)
    }

    /// Nothing is reachable from no node.
    pub proof fn lemma_closure_empty(&self)
        ensures
            self.closure(Set::empty()) == Set::<u64>::empty(),
    {
        reveal(DepGraph::closure);
        assert(self.closure(Set::empty()) =~= Set::<u64>::empty());
    }

    /// A graph is itself with nothing removed.
    pub proof fn lemma_without_nothing(&self)
        ensures
            self.without(*self, Set::empty()),
    {
        assert(self.producers() =~= self.producers().remove_keys(Set::<u64>::empty()));
        assert forall|v: u64| #[trigger] self.consumers_of(v) == self.consumers_of(v).difference(Set::<u64>::empty()) by {
            assert(self.consumers_of(v) =~= self.consumers_of(v).difference(Set::<u64>::empty()));
        }
    }

    /// Removing one more node.
    pub proof fn lemma_without_one_more(&self, current: DepGraph, old: DepGraph, removed: Set<u64>, id: u64)
        requires
            current.without(old, removed),
            self.producers() == current.producers().remove(id),
            forall|v: u64| #[trigger] self.consumers_of(v) == current.consumers_of(v).remove(id),
        ensures
            self.without(old, removed.insert(id)),
    {
        assert(self.producers() =~= old.producers().remove_keys(removed.insert(id)));
        assert forall|v: u64| #[trigger] self.consumers_of(v) == old.consumers_of(v).difference(removed.insert(id)) by {
            assert(self.consumers_of(v) =~= old.consumers_of(v).difference(removed.insert(id)));
        }
    }

    /// One step of removing nodes in turn after invalidating each: the
    /// invalidated set stays the closure, in the graph before the removals, of the nodes
    /// seen so far.
    pub proof fn lemma_invalidate_in_turn(&self, old: DepGraph, seen: Set<u64>, stale: Set<u64>, id: u64)
        requires
            self.without(old, seen),
            stale == old.closure(seen),
        ensures
            self.invalidated(id, stale) == old.closure(seen.insert(id)),
    {
        old.lemma_closure_closed(seen);
        assert forall|i: u64| seen.contains(i) implies stale.contains(i) by {
            old.lemma_closure_holds(seen, i);
        }
        self.lemma_invalidated_without(old, seen, stale, id);
        old.lemma_closure_insert(seen, id);
    }

    /// A walk that enters a set closed under the edges stays in it.
    proof fn lemma_stays_in(&self, p: Seq<u64>, set: Set<u64>, j: int, k: int)
        requires
            self.is_path(p, Set::empty()),
            self.closed_under(set),
            0 <= j <= k < p.len(),
            set.contains(p[j]),
        ensures
            set.contains(p[k]),
        decreases k - j,
    {
        if j < k {
            assert(self.edge(p[j], p[j + 1]));
            self.lemma_stays_in(p, set, j + 1, k);
        }
    }

    /// Every node is in the closure of a set that holds it.
    pub proof fn lemma_closure_holds(&self, ids: Set<u64>, i: u64)
        requires
            ids.contains(i),
        ensures
            self.closure(ids).contains(i),
    {
        reveal(DepGraph::closure);
        let p = seq![i];
        assert(self.is_path(p, Set::empty()));
        assert(self.reaches(i, i, Set::empty()));
    }

    /// The closure of a set is closed under the edges.
    pub proof fn lemma_closure_closed(&self, ids: Set<u64>)
        ensures
            self.closed_under(self.closure(ids)),
    {
        reveal(DepGraph::closure);
        assert forall|a: u64, b: u64| self.closure(ids).contains(a) && #[trigger] self.edge(a, b) implies self.closure(
            ids,
        ).contains(b) by {
            let i = choose|i: u64| ids.contains(i) && #[trigger] self.reaches(i, a, Set::empty());
            self.lemma_extend_walk(i, a, b, Set::empty());
        }
    }

    /// The closure of one more node.
    pub proof fn lemma_closure_insert(&self, ids: Set<u64>, id: u64)
        ensures
            self.closure(ids.insert(id)) == self.closure(ids).union(self.closure(set![id])),
    {
        reveal(DepGraph::closure);
        assert forall|n: u64| #[trigger] self.closure(ids.insert(id)).contains(n) implies self.closure(ids).union(
            self.closure(set![id]),
        ).contains(n) by {
            let i = choose|i: u64| ids.insert(id).contains(i) && #[trigger] self.reaches(i, n, Set::empty());
            if i == id {
                assert(set![id].contains(i));
            } else {
                assert(ids.contains(i));
            }
        }
        assert forall|n: u64| #[trigger] self.closure(ids).union(self.closure(set![id])).contains(n) implies self.closure(
            ids.insert(id),
        ).contains(n) by {
            if self.closure(ids).contains(n) {
                let i = choose|i: u64| ids.contains(i) && #[trigger] self.reaches(i, n, Set::empty());
                assert(ids.insert(id).contains(i));
            } else {
                let i = choose|i: u64| set![id].contains(i) && #[trigger] self.reaches(i, n, Set::empty());
                assert(ids.insert(id).contains(i));
            }
        }
        assert(self.closure(ids.insert(id)) =~= self.closure(ids).union(self.closure(set![id])));
    }

    /// Invalidating `id` into `stale`, in `self` = `old` without nodes of
    /// `stale`, where `stale` is closed under the edges of `old`, adds what
    /// `id` reaches in `old`.
    pub proof fn lemma_invalidated_without(&self, old: DepGraph, removed: Set<u64>, stale: Set<u64>, id: u64)
        requires
            self.without(old, removed),
            removed.subset_of(stale),
            old.closed_under(stale),
        ensures
            self.invalidated(id, stale) == stale.union(old.closure(set![id])),
    {
        reveal(DepGraph::closure);
        assert forall|n: u64| #[trigger] self.invalidated(id, stale).contains(n) implies stale.union(
            old.closure(set![id]),
        ).contains(n) by {
            if !stale.contains(n) {
                let p = choose|p: Seq<u64>| #[trigger]
                    self.is_path(p, stale) && p[0] == id && p[p.len() - 1] == n;
                assert forall|i: int| 0 <= i < p.len() - 1 implies #[trigger] old.edge(p[i], p[i + 1]) by {
                    assert(self.edge(p[i], p[i + 1]));
                    assert(self.producers().contains_key(p[i]));
                    assert(old.producers().contains_key(p[i]));
                    assert(self.producers()[p[i]] == old.producers()[p[i]]);
                    assert(self.consumers_of(self.producers()[p[i]]).contains(p[i + 1]));
                }
                assert(old.is_path(p, Set::empty()));
                assert(old.reaches(id, n, Set::empty()));
                assert(set![id].contains(id));
            }
        }
        assert forall|n: u64| #[trigger] stale.union(old.closure(set![id])).contains(n) implies self.invalidated(
            id,
            stale,
        ).contains(n) by {
            if !stale.contains(n) {
                let i = choose|i: u64| set![id].contains(i) && #[trigger] old.reaches(i, n, Set::empty());
                assert(i == id);
                let p = choose|p: Seq<u64>| #[trigger]
                    old.is_path(p, Set::empty()) && p[0] == id && p[p.len() - 1] == n;
                assert forall|j: int| 0 <= j < p.len() implies !stale.contains(#[trigger] p[j]) by {
                    if stale.contains(p[j]) {
                        old.lemma_stays_in(p, stale, j, p.len() - 1);
                    }
                }
                assert forall|j: int| 0 <= j < p.len() - 1 implies #[trigger] self.edge(p[j], p[j + 1]) by {
                    assert(old.edge(p[j], p[j + 1]));
                    assert(!removed.contains(p[j]));
                    assert(!removed.contains(p[j + 1]));
                    assert(self.producers()[p[j]] == old.producers()[p[j]]);
                    assert(self.consumers_of(old.producers()[p[j]]).contains(p[j + 1]));
                }
                assert(self.is_path(p, stale));
                assert(self.reaches(id, n, stale));
            }
        }
        assert(self.invalidated(id, stale) =~= stale.union(old.closure(set![id])));
    }

    /// Once a node is removed, it neither produces nor consumes anything.
    pub proof fn law_remove_forgets(&self, node: u64)
        requires
            self.wf(),
        ensures
            !self.producers().remove(node).contains_key(node),
            forall|v: u64| #[trigger]
                self.pruned(node).contains_key(v) ==> !self.pruned(node)[v].contains(node)
                    && !self.pruned(node)[v].is_empty(),
    {
    }
}

/// The elements of `set`, each once.
pub(crate) fn elements(set: &HashSet<u64>) -> (v: Vec<u64>)
    ensures
        v@.to_set() == set@,
        v@.no_duplicates(),
{
    let ghost items = spec_hash_keys_iter(set).remaining();
    let mut v: Vec<u64> = Vec::new();
    for x in it: set.iter()
        invariant
            it.seq() == items,
            v@.len() == it.index(),
            forall|i: int| 0 <= i < v@.len() ==> v@[i] == *items[i],
    {
        v.push(*x);
    }
    assert(v@ =~= items.unref());
    v
}

/// The elements of `set` other than `node`.
fn without(set: &HashSet<u64>, node: u64) -> (kept: HashSet<u64>)
    ensures
        kept@ == set@.remove(node),
{
    let ghost items = spec_hash_keys_iter(set).remaining();
    let mut kept: HashSet<u64> = HashSet::new();
    for x in it: set.iter()
        invariant
            it.seq() == items,
            items.unref().to_set() == set@,
            kept@ == items.unref().take(it.index()).to_set().remove(node),
    {
        proof {
            assert(items.unref().take(it.index() + 1) =~= items.unref().take(it.index()).push(*x));
            items.unref().take(it.index()).lemma_push_to_set_commute(*x);
        }
        if *x != node {
            kept.insert(*x);
        }
        assert(kept@ =~= items.unref().take(it.index() + 1).to_set().remove(node));
    }
    assert(items.unref().take(items.len() as int) =~= items.unref());
    kept
}

} // verus!
