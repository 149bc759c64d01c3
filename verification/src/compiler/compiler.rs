use std::collections::{HashMap, HashSet};
use vstd::prelude::*;

use crate::ast::context::Shared;
use crate::ast::types::{Definition, Document};
use crate::chk::errors::{all_reportable, collect_errors, parse_errors, reports_all, Errors};
use crate::diagnostics::Diagnostic;
use crate::lex::token::Token;
use crate::lex::SourceId;

use super::depgraph::{elements, DepGraph};
use super::dependency::{definition_product, dependency_view, Dependency, Producer};
use super::tracker::Consumer;

verus! {

broadcast use vstd::std_specs::hash::group_hash_axioms;

/// Whether two dependencies spell the same thing.
fn same_dependency(a: &Dependency, b: &Dependency) -> (same: bool)
    ensures
        same == (dependency_view(*a) == dependency_view(*b)),
{
    match (a, b) {
        (Dependency::Query, Dependency::Query) => true,
        (Dependency::Mutation, Dependency::Mutation) => true,
        (Dependency::Subscription, Dependency::Subscription) => true,
        (Dependency::Schema, Dependency::Schema) => true,
        (Dependency::Type(x), Dependency::Type(y)) => x.eq(y),
        (Dependency::Directive(x), Dependency::Directive(y)) => x.eq(y),
        (Dependency::Fragment(x), Dependency::Fragment(y)) => x.eq(y),
        _ => false,
    }
}

/// The sources of the definitions in `ids` that have one.
pub open spec fn sources_of(sources: Map<u64, SourceId>, ids: Set<u64>) -> Set<SourceId> {
    Set::new(
        |source: SourceId|
            exists|id: u64| #[trigger] ids.contains(id) && sources.contains_key(id) && sources[id] == source,
    )
}

/// The identifiers `start`, `start + 1`, ..., of `n` definitions.
pub open spec fn fresh_ids(start: u64, n: nat) -> Seq<u64> {
    Seq::new(n, |i: int| (start + i) as u64)
}

/// The source of each of `n` definitions numbered from `start`.
pub open spec fn new_sources(start: u64, n: nat, source: SourceId) -> Map<u64, SourceId> {
    Map::new(|id: u64| start <= id < start + n, |id: u64| source)
}

/// What each of `definitions`, numbered from `start`, provides.
pub open spec fn new_products(start: u64, definitions: Seq<Shared<Definition>>) -> Map<
    u64,
    (int, Seq<char>),
> {
    Map::new(
        |id: u64|
            start <= id < start + definitions.len() && definition_product(
                *definitions[id - start].0,
            ) is Some,
        |id: u64| definition_product(*definitions[id - start].0)->0,
    )
}

/// Which of `definitions`, numbered from `start`, need `dependency`.
pub open spec fn new_consumers(
    start: u64,
    definitions: Seq<Shared<Definition>>,
    dependency: (int, Seq<char>),
) -> Set<u64> {
    Set::new(
        |id: u64|
            start <= id < start + definitions.len() && (*definitions[id - start].0).consumed().contains(
                dependency,
            ),
    )
}

/// The definitions whose diagnostics adding `definitions`, numbered from
/// `start`, makes stale: the new ones, and those of `compiler` that need
/// what a new one provides.
pub open spec fn stale_after_adding(
    compiler: Compiler,
    start: u64,
    definitions: Seq<Shared<Definition>>,
) -> Set<u64> {
    Set::new(
        |id: u64|
            (start <= id < start + definitions.len()) || exists|i: int|
                0 <= i < definitions.len() && #[trigger] definition_product(*definitions[i].0) is Some
                    && compiler.consumers_of(definition_product(*definitions[i].0)->0).contains(id),
    )
}

/// Whether `source` is in `sources`.
fn holds_source(sources: &Vec<SourceId>, source: SourceId) -> (r: bool)
    ensures
        r == sources@.contains(source),
{
    let mut i: usize = 0;
    while i < sources.len()
        invariant
            i <= sources@.len(),
            forall|j: int| 0 <= j < i ==> sources@[j] != source,
        decreases sources.len() - i,
    {
        if sources[i] == source {
            return true;
        }
        i = i + 1;
    }
    false
}

/// Keeps the documents of a workspace, what each definition provides and
/// needs, and the diagnostics of each document and definition, so that a
/// change to one document invalidates only what depends on it.
pub struct Compiler {
    definition_diagnostics: HashMap<u64, Vec<Diagnostic>>,
    definition_sources: HashMap<u64, SourceId>,
    documents: HashMap<usize, (Document, bool)>,
    document_definitions: HashMap<usize, Vec<u64>>,
    document_diagnostics: HashMap<usize, Vec<Diagnostic>>,
    graph: DepGraph,
    dependencies: Vec<Dependency>,
    next_definition: u64,
    imports: HashMap<String, Result<SourceId, String>>,
}

impl Compiler {
    /// Each document, with whether it was imported, by the number of its
    /// source.
    pub closed spec fn documents(&self) -> Map<usize, (Document, bool)> {
        self.documents@
    }

    /// The identifiers of the definitions of each document, in order.
    pub closed spec fn definitions(&self) -> Map<usize, Seq<u64>> {
        Map::new(
            |k: usize| self.document_definitions@.contains_key(k),
            |k: usize| self.document_definitions@[k]@,
        )
    }

    /// The source that each definition comes from.
    pub closed spec fn sources(&self) -> Map<u64, SourceId> {
        self.definition_sources@
    }

    /// The diagnostics found for each definition.
    pub closed spec fn definition_diagnostics(&self) -> Map<u64, Seq<Diagnostic>> {
        Map::new(
            |k: u64| self.definition_diagnostics@.contains_key(k),
            |k: u64| self.definition_diagnostics@[k]@,
        )
    }

    /// The syntax errors of each document.
    pub closed spec fn document_diagnostics(&self) -> Map<usize, Seq<Diagnostic>> {
        Map::new(
            |k: usize| self.document_diagnostics@.contains_key(k),
            |k: usize| self.document_diagnostics@[k]@,
        )
    }

    /// Each dependency that has a number in the graph, spelled out, at its
    /// number.
    pub closed spec fn table(&self) -> Seq<(int, Seq<char>)> {
        self.dependencies@.map_values(|d: Dependency| dependency_view(d))
    }

    /// What each definition provides, spelled out.
    pub closed spec fn produced(&self) -> Map<u64, (int, Seq<char>)> {
        Map::new(
            |id: u64| self.graph.producers().contains_key(id),
            |id: u64| self.table()[self.graph.producers()[id] as int],
        )
    }

    /// The definitions that need `dependency`.
    pub closed spec fn consumers_of(&self, dependency: (int, Seq<char>)) -> Set<u64> {
        Set::new(
            |id: u64|
                exists|v: u64|
                    #![trigger self.graph.consumers_of(v)]
                    v < self.table().len() && self.table()[v as int] == dependency
                        && self.graph.consumers_of(v).contains(id),
        )
    }

    /// The identifiers of the definitions of the document of `source_id`, if
    /// the compiler holds it.
    /// The graph of which definition depends on which.
    pub closed spec fn dependency_graph(&self) -> DepGraph {
        self.graph
    }

    pub open spec fn ids_of(&self, source_id: SourceId) -> Set<u64> {
        if self.definitions().contains_key(source_id.0) {
            self.definitions()[source_id.0].to_set()
        } else {
            Set::empty()
        }
    }

    /// The syntax errors kept for the document of `source_id`.
    pub open spec fn syntax_diagnostics(&self, source_id: SourceId) -> Seq<Diagnostic> {
        if self.document_diagnostics().contains_key(source_id.0) {
            self.document_diagnostics()[source_id.0]
        } else {
            Seq::empty()
        }
    }

    /// The diagnostics kept for the definitions `ids`, one after the other.
    pub open spec fn diagnostics_of(&self, ids: Seq<u64>) -> Seq<Diagnostic>
        decreases ids.len(),
    {
        if ids.len() == 0 {
            Seq::empty()
        } else {
            self.diagnostics_of(ids.drop_last()) + if self.definition_diagnostics().contains_key(
                ids.last(),
            ) {
                self.definition_diagnostics()[ids.last()]
            } else {
                Seq::empty()
            }
        }
    }

    /// The diagnostics of the document of `source_id`: its syntax errors,
    /// then those of each of its definitions, in order.
    pub open spec fn all_diagnostics(&self, source_id: SourceId) -> Seq<Diagnostic> {
        self.syntax_diagnostics(source_id) + if self.definitions().contains_key(source_id.0) {
            self.diagnostics_of(self.definitions()[source_id.0])
        } else {
            Seq::empty()
        }
    }

    /// The identifier that the next definition added gets.
    pub closed spec fn next_id(&self) -> u64 {
        self.next_definition
    }

    /// The bookkeeping agrees with itself: the graph is well formed, each
    /// dependency has one number, the graph only holds numbers that stand
    /// for a dependency, and every identifier in use was handed out.
    pub closed spec fn wf(&self) -> bool {
        &&& self.graph_wf()
        &&& forall|id: u64| #[trigger] self.sources().contains_key(id) ==> id < self.next_definition
        &&& forall|k: usize, i: int|
            self.definitions().contains_key(k) && 0 <= i < self.definitions()[k].len()
                ==> #[trigger] self.definitions()[k][i] < self.next_definition
        &&& self.definitions().dom() == self.documents().dom()
    }

    /// The graph is well formed, each dependency has one number, the graph
    /// only holds numbers that stand for a dependency, and every definition
    /// in the graph was handed out.
    closed spec fn graph_wf(&self) -> bool {
        &&& self.graph.wf()
        &&& forall|i: int, j: int|
            0 <= i < self.table().len() && 0 <= j < self.table().len() && i != j ==> self.table()[i]
                != self.table()[j]
        &&& forall|id: u64| #[trigger]
            self.graph.producers().contains_key(id) ==> self.graph.producers()[id]
                < self.table().len() && id < self.next_definition
        &&& forall|v: u64| #[trigger]
            self.graph.consumers().contains_key(v) ==> v < self.table().len()
        &&& forall|v: u64, id: u64| #[trigger]
            self.graph.consumers_of(v).contains(id) ==> id < self.next_definition
    }

    /// A compiler that holds no document.
    pub fn new() -> (compiler: Compiler)
        ensures
            compiler.wf(),
            compiler.documents() == Map::<usize, (Document, bool)>::empty(),
            compiler.definitions() == Map::<usize, Seq<u64>>::empty(),
            compiler.sources() == Map::<u64, SourceId>::empty(),
            compiler.definition_diagnostics() == Map::<u64, Seq<Diagnostic>>::empty(),
            compiler.document_diagnostics() == Map::<usize, Seq<Diagnostic>>::empty(),
            compiler.produced() == Map::<u64, (int, Seq<char>)>::empty(),
            forall|d: (int, Seq<char>)| compiler.consumers_of(d) == Set::<u64>::empty(),
            compiler.next_id() == 0,
    {
        let compiler = Compiler {
            definition_diagnostics: HashMap::new(),
            definition_sources: HashMap::new(),
            documents: HashMap::new(),
            document_definitions: HashMap::new(),
            document_diagnostics: HashMap::new(),
            graph: DepGraph::new(),
            dependencies: Vec::new(),
            next_definition: 0,
            imports: HashMap::new(),
        };
        assert(compiler.definitions() =~= Map::<usize, Seq<u64>>::empty());
        assert(compiler.definition_diagnostics() =~= Map::<u64, Seq<Diagnostic>>::empty());
        assert(compiler.document_diagnostics() =~= Map::<usize, Seq<Diagnostic>>::empty());
        assert(compiler.produced() =~= Map::<u64, (int, Seq<char>)>::empty());
        assert forall|d: (int, Seq<char>)| compiler.consumers_of(d) =~= Set::<u64>::empty() by {}
        compiler
    }

    /// The document of `source_id`, if the compiler holds it.
    pub fn document(&self, source_id: SourceId) -> (r: Option<&Document>)
        ensures
            r matches Some(d) ==> self.documents().contains_key(source_id.0) && *d
                == self.documents()[source_id.0].0,
            r is None ==> !self.documents().contains_key(source_id.0),
    {
        match self.documents.get(&source_id.0) {
            Some(entry) => Some(&entry.0),
            None => None,
        }
    }

    /// Keeps what each import resolved to.
    pub fn update_resolved_imports(&mut self, imports: HashMap<String, Result<SourceId, String>>)
        requires
            old(self).wf(),
        ensures
            final(self).documents() == old(self).documents(),
            final(self).definitions() == old(self).definitions(),
            final(self).sources() == old(self).sources(),
            final(self).definition_diagnostics() == old(self).definition_diagnostics(),
            final(self).document_diagnostics() == old(self).document_diagnostics(),
            final(self).produced() == old(self).produced(),
            forall|d: (int, Seq<char>)| final(self).consumers_of(d) == old(self).consumers_of(d),
            final(self).next_id() == old(self).next_id(),
            final(self).wf(),
    {
        self.imports = imports;
        assert(self.graph == old(self).graph);
        assert(self.dependencies == old(self).dependencies);
        assert(self.table() == old(self).table());
        assert forall|d: (int, Seq<char>)| self.consumers_of(d) =~= old(self).consumers_of(d) by {}
        assert(self.definitions() =~= old(self).definitions());
        assert(self.sources() =~= old(self).sources());
        assert(self.documents() =~= old(self).documents());
    }

    /// The number of `dependency` in the graph, given it one if it has none.
    fn intern(&mut self, dependency: Dependency) -> (v: u64)
        requires
            old(self).graph_wf(),
        ensures
            final(self).graph_wf(),
            final(self).produced() == old(self).produced(),
            forall|d: (int, Seq<char>)| final(self).consumers_of(d) == old(self).consumers_of(d),
            v < final(self).table().len(),
            final(self).table()[v as int] == dependency_view(dependency),
            final(self).table().take(old(self).table().len() as int) == old(self).table(),
            final(self).table().len() <= old(self).table().len() + 1,
            final(self).table().len() == old(self).table().len() + 1 ==> forall|i: int|
                0 <= i < old(self).table().len() ==> old(self).table()[i] != dependency_view(
                    dependency,
                ),
            forall|i: int, j: int|
                0 <= i < final(self).table().len() && 0 <= j < final(self).table().len() && i != j
                    ==> final(self).table()[i] != final(self).table()[j],
            final(self).graph == old(self).graph,
            final(self).documents() == old(self).documents(),
            final(self).definitions() == old(self).definitions(),
            final(self).sources() == old(self).sources(),
            final(self).definition_diagnostics() == old(self).definition_diagnostics(),
            final(self).document_diagnostics() == old(self).document_diagnostics(),
            final(self).next_id() == old(self).next_id(),
    {
        let mut i: usize = 0;
        while i < self.dependencies.len()
            invariant
                i <= self.dependencies@.len(),
                self.table() == old(self).table(),
                *self == *old(self),
                forall|j: int| 0 <= j < i ==> self.table()[j] != dependency_view(dependency),
                old(self).graph_wf(),
            decreases self.dependencies.len() - i,
        {
            if same_dependency(&self.dependencies[i], &dependency) {
                return i as u64;
            }
            i = i + 1;
        }
        let v = self.dependencies.len() as u64;
        self.dependencies.push(dependency);
        assert(self.table() =~= old(self).table().push(dependency_view(dependency)));
        assert(self.table().take(old(self).table().len() as int) =~= old(self).table());
        assert(self.produced() =~= old(self).produced());
        assert forall|d: (int, Seq<char>)| self.consumers_of(d) =~= old(self).consumers_of(d) by {
            assert forall|id: u64| self.consumers_of(d).contains(id) implies old(self).consumers_of(d).contains(id) by {
                let w = choose|w: u64|
                    #![trigger self.graph.consumers_of(w)]
                    w < self.table().len() && self.table()[w as int] == d
                        && self.graph.consumers_of(w).contains(id);
                assert(self.graph.consumers().contains_key(w));
                assert(old(self).graph.consumers_of(w).contains(id));
            }
            assert forall|id: u64| old(self).consumers_of(d).contains(id) implies self.consumers_of(d).contains(id) by {
                let w = choose|w: u64|
                    #![trigger old(self).graph.consumers_of(w)]
                    w < old(self).table().len() && old(self).table()[w as int] == d
                        && old(self).graph.consumers_of(w).contains(id);
                assert(self.graph.consumers_of(w).contains(id));
            }
        }
        v
    }

    /// Two compilers with the same numbering and the same consumers agree on
    /// who needs what.
    proof fn lemma_same_consumers(a: &Compiler, b: &Compiler)
        requires
            a.table() == b.table(),
            a.graph.consumers() == b.graph.consumers(),
        ensures
            forall|d: (int, Seq<char>)| #[trigger] a.consumers_of(d) == b.consumers_of(d),
    {
        assert forall|d: (int, Seq<char>)| #[trigger] a.consumers_of(d) =~= b.consumers_of(d) by {
            assert forall|c: u64| a.consumers_of(d).contains(c) implies b.consumers_of(d).contains(c) by {
                let w = choose|w: u64|
                    #![trigger a.graph.consumers_of(w)]
                    w < a.table().len() && a.table()[w as int] == d
                        && a.graph.consumers_of(w).contains(c);
                assert(b.graph.consumers_of(w).contains(c));
            }
            assert forall|c: u64| b.consumers_of(d).contains(c) implies a.consumers_of(d).contains(c) by {
                let w = choose|w: u64|
                    #![trigger b.graph.consumers_of(w)]
                    w < b.table().len() && b.table()[w as int] == d
                        && b.graph.consumers_of(w).contains(c);
                assert(a.graph.consumers_of(w).contains(c));
            }
        }
    }

    /// Records that definition `id` provides `product`; hands back the
    /// definitions that needed it so far.
    fn record_product(&mut self, id: u64, product: Dependency) -> (consumers: Vec<u64>)
        requires
            old(self).graph_wf(),
            id < old(self).next_id(),
        ensures
            final(self).graph_wf(),
            final(self).produced() == old(self).produced().insert(id, dependency_view(product)),
            forall|d: (int, Seq<char>)| final(self).consumers_of(d) == old(self).consumers_of(d),
            consumers@.to_set() == old(self).consumers_of(dependency_view(product)),
            consumers@.no_duplicates(),
            final(self).documents() == old(self).documents(),
            final(self).definitions() == old(self).definitions(),
            final(self).sources() == old(self).sources(),
            final(self).definition_diagnostics() == old(self).definition_diagnostics(),
            final(self).document_diagnostics() == old(self).document_diagnostics(),
            final(self).next_id() == old(self).next_id(),
    {
        let v = self.intern(product);
        let ghost before = *self;
        let consumers = self.graph.produce(id, v);
        assert(self.produced() =~= old(self).produced().insert(id, dependency_view(product)));
        proof {
            Compiler::lemma_same_consumers(self, &before);
            assert(self.graph.producers()[id] == v);
            assert forall|n: u64| #[trigger] self.graph.producers().contains_key(n) implies self.graph.producers()[n]
                < self.table().len() && n < self.next_definition by {
                if n != id {
                    assert(before.graph.producers().contains_key(n));
                }
            }
            assert forall|w: u64, c: u64| #[trigger] self.graph.consumers_of(w).contains(c) implies c < self.next_definition by {
                assert(before.graph.consumers_of(w).contains(c));
            }
        }
        assert(consumers@.to_set() =~= old(self).consumers_of(dependency_view(product))) by {
            assert forall|c: u64| #[trigger] before.consumers_of(dependency_view(product)).contains(c) implies before.graph.consumers_of(v).contains(c) by {
                let w = choose|w: u64|
                    #![trigger before.graph.consumers_of(w)]
                    w < before.table().len() && before.table()[w as int] == dependency_view(product)
                        && before.graph.consumers_of(w).contains(c);
                assert(w == v);
            }
        }
        consumers
    }

    /// Records that definition `id` needs `need`.
    fn record_need(&mut self, id: u64, need: Dependency)
        requires
            old(self).graph_wf(),
            id < old(self).next_id(),
        ensures
            final(self).graph_wf(),
            final(self).produced() == old(self).produced(),
            forall|d: (int, Seq<char>)| #[trigger] final(self).consumers_of(d) == if d == dependency_view(need) {
                old(self).consumers_of(d).insert(id)
            } else {
                old(self).consumers_of(d)
            },
            final(self).documents() == old(self).documents(),
            final(self).definitions() == old(self).definitions(),
            final(self).sources() == old(self).sources(),
            final(self).definition_diagnostics() == old(self).definition_diagnostics(),
            final(self).document_diagnostics() == old(self).document_diagnostics(),
            final(self).next_id() == old(self).next_id(),
    {
        let ghost view = dependency_view(need);
        let v = self.intern(need);
        let ghost before = *self;
        self.graph.consume(id, v);
        assert(self.produced() =~= before.produced());
        proof {
            assert forall|w: u64| #[trigger] self.graph.consumers().contains_key(w) implies w < self.table().len() by {
                if w != v {
                    assert(before.graph.consumers().contains_key(w));
                }
            }
            assert forall|w: u64, c: u64| #[trigger] self.graph.consumers_of(w).contains(c) implies c < self.next_definition by {
                if w != v || c != id {
                    assert(before.graph.consumers_of(w).contains(c));
                }
            }
            assert forall|n: u64| #[trigger] self.graph.producers().contains_key(n) implies self.graph.producers()[n]
                < self.table().len() && n < self.next_definition by {
                assert(before.graph.producers().contains_key(n));
            }
        }
        assert forall|d: (int, Seq<char>)| #[trigger] self.consumers_of(d) =~= if d == view {
            before.consumers_of(d).insert(id)
        } else {
            before.consumers_of(d)
        } by {
            assert forall|c: u64| self.consumers_of(d).contains(c) implies (if d == view {
                before.consumers_of(d).insert(id)
            } else {
                before.consumers_of(d)
            }).contains(c) by {
                let w = choose|w: u64|
                    #![trigger self.graph.consumers_of(w)]
                    w < self.table().len() && self.table()[w as int] == d
                        && self.graph.consumers_of(w).contains(c);
                if w != v || c != id {
                    assert(before.graph.consumers_of(w).contains(c));
                }
            }
            if d == view {
                assert(self.graph.consumers_of(v).contains(id));
            }
            assert forall|c: u64| before.consumers_of(d).contains(c) implies self.consumers_of(d).contains(c) by {
                let w = choose|w: u64|
                    #![trigger before.graph.consumers_of(w)]
                    w < before.table().len() && before.table()[w as int] == d
                        && before.graph.consumers_of(w).contains(c);
                assert(self.graph.consumers_of(w).contains(c));
            }
        }
    }

    /// Records what definition `id` provides and what it needs; adds to
    /// `invalid` the definitions that needed what it provides.
    fn add_definition(&mut self, id: u64, definition: &Definition, invalid: &mut HashSet<u64>)
        requires
            old(self).graph_wf(),
            id < old(self).next_id(),
        ensures
            final(self).graph_wf(),
            final(self).produced() == match definition_product(*definition) {
                Some(p) => old(self).produced().insert(id, p),
                None => old(self).produced(),
            },
            forall|d: (int, Seq<char>)| #[trigger] final(self).consumers_of(d) == if definition.consumed().contains(d) {
                old(self).consumers_of(d).insert(id)
            } else {
                old(self).consumers_of(d)
            },
            final(invalid)@ == match definition_product(*definition) {
                Some(p) => old(invalid)@.union(old(self).consumers_of(p)),
                None => old(invalid)@,
            },
            final(self).documents() == old(self).documents(),
            final(self).definitions() == old(self).definitions(),
            final(self).sources() == old(self).sources(),
            final(self).definition_diagnostics() == old(self).definition_diagnostics(),
            final(self).document_diagnostics() == old(self).document_diagnostics(),
            final(self).next_id() == old(self).next_id(),
    {
        match definition.product() {
            Some(product) => {
                let consumers = self.record_product(id, product);
                let mut k: usize = 0;
                while k < consumers.len()
                    invariant
                        k <= consumers@.len(),
                        invalid@ == old(invalid)@.union(consumers@.take(k as int).to_set()),
                    decreases consumers.len() - k,
                {
                    invalid.insert(consumers[k]);
                    proof {
                        assert(consumers@.take(k + 1) =~= consumers@.take(k as int).push(consumers@[k as int]));
                        consumers@.take(k as int).lemma_push_to_set_commute(consumers@[k as int]);
                    }
                    k = k + 1;
                    assert(invalid@ =~= old(invalid)@.union(consumers@.take(k as int).to_set()));
                }
                assert(consumers@.take(k as int) =~= consumers@);
            },
            None => {},
        }
        let ghost base = *self;
        let mut needs = definition.consumes();
        let ghost all = needs@;
        while needs.len() > 0
            invariant
                self.graph_wf(),
                id < self.next_id(),
                needs@ == all.take(needs@.len() as int),
                needs@.len() <= all.len(),
                all.map_values(|d: Dependency| dependency_view(d)) == definition.consumed(),
                self.produced() == base.produced(),
                forall|d: (int, Seq<char>)| #[trigger] self.consumers_of(d) == if exists|j: int|
                    needs@.len() <= j < all.len() && dependency_view(all[j]) == d {
                    base.consumers_of(d).insert(id)
                } else {
                    base.consumers_of(d)
                },
                self.documents() == base.documents(),
                self.definitions() == base.definitions(),
                self.sources() == base.sources(),
                self.definition_diagnostics() == base.definition_diagnostics(),
                self.document_diagnostics() == base.document_diagnostics(),
                self.next_id() == base.next_id(),
            decreases needs.len(),
        {
            let ghost before = *self;
            let ghost count = needs@.len();
            let need = needs.pop().unwrap();
            assert(need == all[count - 1]);
            self.record_need(id, need);
            assert(needs@ =~= all.take(needs@.len() as int));
            assert forall|d: (int, Seq<char>)| #[trigger] self.consumers_of(d) == if exists|j: int|
                needs@.len() <= j < all.len() && dependency_view(all[j]) == d {
                base.consumers_of(d).insert(id)
            } else {
                base.consumers_of(d)
            } by {
                if dependency_view(need) == d {
                    assert(dependency_view(all[count - 1]) == d);
                } else {
                    if exists|j: int| needs@.len() <= j < all.len() && dependency_view(all[j]) == d {
                        let j = choose|j: int| needs@.len() <= j < all.len() && dependency_view(all[j]) == d;
                        assert(j != count - 1);
                    }
                }
                assert(self.consumers_of(d) =~= if exists|j: int|
                    needs@.len() <= j < all.len() && dependency_view(all[j]) == d {
                    base.consumers_of(d).insert(id)
                } else {
                    base.consumers_of(d)
                });
            }
        }
        assert forall|d: (int, Seq<char>)| #[trigger] self.consumers_of(d) == if definition.consumed().contains(d) {
            base.consumers_of(d).insert(id)
        } else {
            base.consumers_of(d)
        } by {
            if definition.consumed().contains(d) {
                let j = choose|j: int| 0 <= j < definition.consumed().len() && definition.consumed()[j] == d;
                assert(dependency_view(all[j]) == d);
            }
            if exists|j: int| 0 <= j < all.len() && dependency_view(all[j]) == d {
                let j = choose|j: int| 0 <= j < all.len() && dependency_view(all[j]) == d;
                assert(definition.consumed()[j] == d);
            }
        }
    }

    /// Drops the diagnostics of the definitions in `ids`, and hands back
    /// their sources, each once.
    fn invalidate(&mut self, ids: &HashSet<u64>) -> (changed: Vec<SourceId>)
        ensures
            final(self).definition_diagnostics() == old(self).definition_diagnostics().remove_keys(
                ids@,
            ),
            changed@.no_duplicates(),
            changed@.to_set() == sources_of(old(self).sources(), ids@),
            final(self).graph == old(self).graph,
            final(self).dependencies == old(self).dependencies,
            final(self).documents() == old(self).documents(),
            final(self).definitions() == old(self).definitions(),
            final(self).sources() == old(self).sources(),
            final(self).document_diagnostics() == old(self).document_diagnostics(),
            final(self).next_id() == old(self).next_id(),
    {
        let list = elements(ids);
        let mut changed: Vec<SourceId> = Vec::new();
        let mut i: usize = 0;
        while i < list.len()
            invariant
                i <= list@.len(),
                list@.to_set() == ids@,
                self.definition_diagnostics() == old(self).definition_diagnostics().remove_keys(
                    list@.take(i as int).to_set(),
                ),
                changed@.no_duplicates(),
                changed@.to_set() == sources_of(old(self).sources(), list@.take(i as int).to_set()),
                self.graph == old(self).graph,
                self.dependencies == old(self).dependencies,
                self.documents() == old(self).documents(),
                self.definitions() == old(self).definitions(),
                self.sources() == old(self).sources(),
                self.document_diagnostics() == old(self).document_diagnostics(),
                self.next_id() == old(self).next_id(),
            decreases list.len() - i,
        {
            let id = list[i];
            let ghost done = list@.take(i as int).to_set();
            proof {
                assert(list@.take(i + 1) =~= list@.take(i as int).push(id));
                list@.take(i as int).lemma_push_to_set_commute(id);
            }
            let ghost prev = self.definition_diagnostics();
            self.definition_diagnostics.remove(&id);
            assert(self.definition_diagnostics() =~= prev.remove(id));
            assert(prev.remove(id) =~= old(self).definition_diagnostics().remove_keys(done.insert(id)));
            let ghost before = changed@;
            match self.definition_sources.get(&id) {
                Some(source) => {
                    if !holds_source(&changed, *source) {
                        changed.push(*source);
                        proof {
                            before.lemma_push_to_set_commute(*source);
                        }
                    }
                },
                None => {},
            }
            assert(changed@.to_set() =~= sources_of(old(self).sources(), done.insert(id))) by {
                assert forall|src: SourceId| #[trigger] sources_of(old(self).sources(), done.insert(id)).contains(src) implies changed@.to_set().contains(src) by {
                    let x = choose|x: u64| #[trigger] done.insert(id).contains(x) && old(self).sources().contains_key(x)
                        && old(self).sources()[x] == src;
                    if x != id {
                        assert(sources_of(old(self).sources(), done).contains(src));
                    }
                }
                assert forall|src: SourceId| changed@.to_set().contains(src) implies #[trigger] sources_of(old(self).sources(), done.insert(id)).contains(src) by {
                    if !before.to_set().contains(src) {
                        assert(done.insert(id).contains(id));
                    } else {
                        let x = choose|x: u64| #[trigger] done.contains(x) && old(self).sources().contains_key(x)
                            && old(self).sources()[x] == src;
                        assert(done.insert(id).contains(x));
                    }
                }
            }
            i = i + 1;
        }
        assert(list@.take(i as int) =~= list@);
        changed
    }

    /// Adds the document parsed from `source_id`: keeps it with its syntax
    /// errors, gives each of its definitions a new identifier, records what
    /// each provides and needs, and drops the diagnostics of the new
    /// definitions and of those that need what they provide. Hands back the
    /// sources whose diagnostics changed, each once: `source_id`, and the
    /// sources of those definitions.
    pub fn add_document(&mut self, source_id: SourceId, document: (Document, Vec<Token>), is_import: bool) -> (changed: Vec<SourceId>)
        requires
            old(self).wf(),
            all_reportable(document.0.error_sites()),
            old(self).next_id() + document.0.definitions.0@.len() <= u64::MAX,
        ensures
            final(self).wf(),
            final(self).documents() == old(self).documents().insert(source_id.0, (document.0, is_import)),
            final(self).next_id() == old(self).next_id() + document.0.definitions.0@.len(),
            final(self).definitions() == old(self).definitions().insert(
                source_id.0,
                fresh_ids(old(self).next_id(), document.0.definitions.0@.len()),
            ),
            final(self).sources() == old(self).sources().union_prefer_right(
                new_sources(old(self).next_id(), document.0.definitions.0@.len(), source_id),
            ),
            final(self).document_diagnostics().contains_key(source_id.0),
            reports_all(
                parse_errors(document.0.error_sites(), document.1@),
                final(self).document_diagnostics()[source_id.0],
            ),
            final(self).document_diagnostics().remove(source_id.0) == old(self).document_diagnostics().remove(source_id.0),
            final(self).produced() == old(self).produced().union_prefer_right(
                new_products(old(self).next_id(), document.0.definitions.0@),
            ),
            forall|d: (int, Seq<char>)| #[trigger] final(self).consumers_of(d) == old(self).consumers_of(d).union(
                new_consumers(old(self).next_id(), document.0.definitions.0@, d),
            ),
            final(self).definition_diagnostics() == old(self).definition_diagnostics().remove_keys(
                stale_after_adding(*old(self), old(self).next_id(), document.0.definitions.0@),
            ),
            changed@.no_duplicates(),
            changed@.to_set() == sources_of(
                final(self).sources(),
                stale_after_adding(*old(self), old(self).next_id(), document.0.definitions.0@),
            ).insert(source_id),
    {
        let diagnostics = collect_errors(&document);
        let ghost o = *self;
        let ghost defs = document.0.definitions.0@;
        let start = self.next_definition;
        let mut ids: Vec<u64> = Vec::new();
        let mut invalid: HashSet<u64> = HashSet::new();
        let mut i: usize = 0;
        while i < document.0.definitions.0.len()
            invariant
                i <= defs.len(),
                defs == document.0.definitions.0@,
                o == *old(self),
                o.wf(),
                start == o.next_id(),
                start + defs.len() <= u64::MAX,
                self.graph_wf(),
                self.next_definition == start + i,
                self.sources() == o.sources().union_prefer_right(new_sources(start, i as nat, source_id)),
                ids@ == fresh_ids(start, i as nat),
                invalid@ == stale_after_adding(o, start, defs.take(i as int)),
                self.produced() == o.produced().union_prefer_right(new_products(start, defs.take(i as int))),
                forall|d: (int, Seq<char>)| #[trigger] self.consumers_of(d) == o.consumers_of(d).union(
                    new_consumers(start, defs.take(i as int), d),
                ),
                self.documents() == o.documents(),
                self.definitions() == o.definitions(),
                self.definition_diagnostics() == o.definition_diagnostics(),
                self.document_diagnostics() == o.document_diagnostics(),
            decreases defs.len() - i,
        {
            let ghost top = *self;
            let id = self.next_definition;
            self.next_definition = id + 1;
            let ghost before_sources = self.sources();
            self.definition_sources.insert(id, source_id);
            assert(self.sources() =~= o.sources().union_prefer_right(new_sources(start, (i + 1) as nat, source_id)));
            ids.push(id);
            assert(ids@ =~= fresh_ids(start, (i + 1) as nat));
            invalid.insert(id);
            let ghost middle = *self;
            let ghost invalid_before = invalid@;
            proof {
                Compiler::lemma_same_consumers(&middle, &top);
            }
            let definition = &*document.0.definitions.0[i].0;
            assert(*definition == *defs[i as int].0);
            self.add_definition(id, definition, &mut invalid);
            proof {
                let next = defs.take(i + 1);
                let prev = defs.take(i as int);
                assert(next.len() == i + 1);
                assert forall|k: int| 0 <= k < i ==> next[k] == prev[k] by {}
                assert(next[i as int] == defs[i as int]);
                assert(self.produced() =~= o.produced().union_prefer_right(new_products(start, next)));
                assert forall|d: (int, Seq<char>)| #[trigger] self.consumers_of(d) == o.consumers_of(d).union(
                    new_consumers(start, next, d),
                ) by {
                    assert(middle.consumers_of(d) == o.consumers_of(d).union(new_consumers(start, prev, d)));
                    assert forall|x: u64| #[trigger] new_consumers(start, next, d).contains(x) == (new_consumers(start, prev, d).contains(x) || (x == id && definition.consumed().contains(d))) by {
                        if start <= x < start + i {
                            assert(next[x - start] == prev[x - start]);
                        }
                    }
                    assert(self.consumers_of(d) =~= o.consumers_of(d).union(new_consumers(start, next, d)));
                }
                assert(invalid@ =~= stale_after_adding(o, start, next)) by {
                    assert forall|x: u64| #[trigger] invalid@.contains(x) implies stale_after_adding(o, start, next).contains(x) by {
                        if !invalid_before.contains(x) {
                            let p = definition_product(*definition)->0;
                            assert(middle.consumers_of(p).contains(x));
                            if !o.consumers_of(p).contains(x) {
                                assert(new_consumers(start, prev, p).contains(x));
                            } else {
                                assert(definition_product(*next[i as int].0) is Some);
                            }
                        } else if x != id {
                            assert(stale_after_adding(o, start, prev).contains(x));
                            if !(start <= x < start + prev.len()) {
                                let k = choose|k: int|
                                    0 <= k < prev.len() && #[trigger] definition_product(*prev[k].0) is Some
                                        && o.consumers_of(definition_product(*prev[k].0)->0).contains(x);
                                assert(definition_product(*next[k].0) is Some);
                            }
                        }
                    }
                    assert forall|x: u64| #[trigger] stale_after_adding(o, start, next).contains(x) implies invalid@.contains(x) by {
                        if !(start <= x < start + next.len()) {
                            let k = choose|k: int|
                                0 <= k < next.len() && #[trigger] definition_product(*next[k].0) is Some
                                    && o.consumers_of(definition_product(*next[k].0)->0).contains(x);
                            if k < i {
                                assert(definition_product(*prev[k].0) is Some);
                                assert(stale_after_adding(o, start, prev).contains(x));
                            } else {
                                let p = definition_product(*definition)->0;
                                assert(middle.consumers_of(p).contains(x));
                            }
                        } else if x != id {
                            assert(stale_after_adding(o, start, prev).contains(x));
                        }
                    }
                }
            }
            i = i + 1;
        }
        assert(defs.take(i as int) =~= defs);
        let ghost after_loop = *self;
        self.documents.insert(source_id.0, (document.0, is_import));
        self.document_diagnostics.insert(source_id.0, diagnostics);
        self.document_definitions.insert(source_id.0, ids);
        assert(self.documents() =~= o.documents().insert(source_id.0, (document.0, is_import)));
        assert(self.definitions() =~= o.definitions().insert(source_id.0, fresh_ids(start, defs.len())));
        assert(self.document_diagnostics().remove(source_id.0) =~= o.document_diagnostics().remove(source_id.0));
        let ghost sources_now = self.sources();
        let mut changed = self.invalidate(&invalid);
        let ghost listed = changed@;
        if !holds_source(&changed, source_id) {
            changed.push(source_id);
            proof {
                listed.lemma_push_to_set_commute(source_id);
            }
        }
        assert(changed@.to_set() =~= sources_of(sources_now, invalid@).insert(source_id));
        proof {
            Compiler::lemma_same_consumers(self, &after_loop);
        }
        changed
    }

    /// When the graph of `b` is that of `a` without `node`, so are its
    /// consumers.
    proof fn lemma_consumers_without(a: &Compiler, b: &Compiler, node: u64)
        requires
            a.table() == b.table(),
            forall|v: u64| #[trigger] b.graph.consumers_of(v) == a.graph.consumers_of(v).remove(node),
        ensures
            forall|d: (int, Seq<char>)| #[trigger] b.consumers_of(d) == a.consumers_of(d).remove(node),
    {
        assert forall|d: (int, Seq<char>)| #[trigger] b.consumers_of(d) =~= a.consumers_of(d).remove(node) by {
            assert forall|c: u64| b.consumers_of(d).contains(c) implies a.consumers_of(d).remove(node).contains(c) by {
                let w = choose|w: u64|
                    #![trigger b.graph.consumers_of(w)]
                    w < b.table().len() && b.table()[w as int] == d
                        && b.graph.consumers_of(w).contains(c);
                assert(a.graph.consumers_of(w).contains(c));
            }
            assert forall|c: u64| a.consumers_of(d).remove(node).contains(c) implies b.consumers_of(d).contains(c) by {
                let w = choose|w: u64|
                    #![trigger a.graph.consumers_of(w)]
                    w < a.table().len() && a.table()[w as int] == d
                        && a.graph.consumers_of(w).contains(c);
                assert(b.graph.consumers_of(w).contains(c));
            }
        }
    }

    /// Forgets definition `id` in the graph.
    fn forget(&mut self, id: u64)
        requires
            old(self).graph_wf(),
        ensures
            final(self).graph_wf(),
            final(self).produced() == old(self).produced().remove(id),
            forall|d: (int, Seq<char>)| #[trigger] final(self).consumers_of(d) == old(self).consumers_of(d).remove(id),
            final(self).graph.producers() == old(self).graph.producers().remove(id),
            forall|v: u64| #[trigger] final(self).graph.consumers_of(v) == old(self).graph.consumers_of(v).remove(id),
            final(self).dependencies == old(self).dependencies,
            final(self).documents() == old(self).documents(),
            final(self).definitions() == old(self).definitions(),
            final(self).sources() == old(self).sources(),
            final(self).definition_diagnostics() == old(self).definition_diagnostics(),
            final(self).document_diagnostics() == old(self).document_diagnostics(),
            final(self).next_id() == old(self).next_id(),
    {
        self.graph.remove(id);
        proof {
            let o = *old(self);
            assert forall|v: u64| #[trigger] self.graph.consumers_of(v) == o.graph.consumers_of(v).remove(id) by {
                assert(self.graph.consumers_of(v) =~= o.graph.consumers_of(v).remove(id));
            }
            Compiler::lemma_consumers_without(&o, self, id);
            assert(self.produced() =~= o.produced().remove(id));
            assert forall|n: u64| #[trigger] self.graph.producers().contains_key(n) implies self.graph.producers()[n]
                < self.table().len() && n < self.next_definition by {
                assert(o.graph.producers().contains_key(n));
            }
            assert forall|w: u64| #[trigger] self.graph.consumers().contains_key(w) implies w < self.table().len() by {
                assert(o.graph.consumers().contains_key(w));
            }
            assert forall|w: u64, c: u64| #[trigger] self.graph.consumers_of(w).contains(c) implies c < self.next_definition by {
                assert(o.graph.consumers_of(w).contains(c));
            }
        }
    }

    /// Removes the document of `source_id` and forgets its definitions: what
    /// they provide and need, and where they come from. Drops the
    /// diagnostics of its definitions and of those that depended on them, and
    /// hands back the sources of all those definitions, each once. The syntax
    /// errors of the document stay until it is added again.
    #[verifier::spinoff_prover]
    pub fn remove_document(&mut self, source_id: SourceId) -> (changed: Vec<SourceId>)
        requires
            old(self).wf(),
        ensures
            final(self).wf(),
            final(self).documents() == old(self).documents().remove(source_id.0),
            final(self).definitions() == old(self).definitions().remove(source_id.0),
            final(self).sources() == old(self).sources().remove_keys(old(self).ids_of(source_id)),
            final(self).produced() == old(self).produced().remove_keys(old(self).ids_of(source_id)),
            forall|d: (int, Seq<char>)| #[trigger] final(self).consumers_of(d) == old(self).consumers_of(d).difference(
                old(self).ids_of(source_id),
            ),
            final(self).document_diagnostics() == old(self).document_diagnostics(),
            final(self).next_id() == old(self).next_id(),
            changed@.no_duplicates(),
            final(self).definition_diagnostics() == old(self).definition_diagnostics().remove_keys(
                old(self).dependency_graph().closure(old(self).ids_of(source_id)),
            ),
            changed@.to_set() == sources_of(
                old(self).sources(),
                old(self).dependency_graph().closure(old(self).ids_of(source_id)),
            ),
    {
        let ghost o = *self;
        let ids = match self.document_definitions.remove(&source_id.0) {
            Some(ids) => ids,
            None => Vec::new(),
        };
        self.documents.remove(&source_id.0);
        assert(ids@.to_set() =~= o.ids_of(source_id));
        assert(self.definitions() =~= o.definitions().remove(source_id.0));
        assert(self.documents() =~= o.documents().remove(source_id.0));
        assert(self.graph == o.graph);
        assert(self.dependencies == o.dependencies);
        assert(self.table() == o.table());
        assert(self.graph_wf());
        proof {
            Compiler::lemma_same_consumers(self, &o);
        }
        let mut stale: HashSet<u64> = HashSet::new();
        proof {
            assert(ids@.take(0).to_set() =~= Set::<u64>::empty());
            o.graph.lemma_without_nothing();
            o.graph.lemma_closure_empty();
        }
        let mut k: usize = 0;
        while k < ids.len()
            invariant
                k <= ids@.len(),
                ids@.to_set() == o.ids_of(source_id),
                self.graph_wf(),
                self.produced() == o.produced().remove_keys(ids@.take(k as int).to_set()),
                forall|d: (int, Seq<char>)| #[trigger] self.consumers_of(d) == o.consumers_of(d).difference(
                    ids@.take(k as int).to_set(),
                ),
                ids@.take(k as int).to_set().subset_of(stale@),
                self.graph.without(o.graph, ids@.take(k as int).to_set()),
                stale@ == o.graph.closure(ids@.take(k as int).to_set()),
                self.documents() == o.documents().remove(source_id.0),
                self.definitions() == o.definitions().remove(source_id.0),
                self.sources() == o.sources(),
                self.definition_diagnostics() == o.definition_diagnostics(),
                self.document_diagnostics() == o.document_diagnostics(),
                self.next_id() == o.next_id(),
            decreases ids.len() - k,
        {
            let id = ids[k];
            let ghost prev = stale@;
            let ghost before = *self;
            proof {
                before.graph.lemma_invalidate_in_turn(o.graph, ids@.take(k as int).to_set(), prev, id);
            }
            self.graph.invalidate(id, &mut stale);
            proof {
                before.graph.law_invalidate_adds_node(id, prev);
                Compiler::lemma_same_consumers(self, &before);
                assert(ids@.take(k + 1) =~= ids@.take(k as int).push(id));
                ids@.take(k as int).lemma_push_to_set_commute(id);
            }
            let ghost middle = *self;
            self.forget(id);
            proof {
                self.graph.lemma_without_one_more(middle.graph, o.graph, ids@.take(k as int).to_set(), id);
                assert(self.produced() =~= o.produced().remove_keys(ids@.take(k + 1).to_set()));
                assert forall|d: (int, Seq<char>)| #[trigger] self.consumers_of(d) == o.consumers_of(d).difference(
                    ids@.take(k + 1).to_set(),
                ) by {
                    assert(middle.consumers_of(d) == before.consumers_of(d));
                    assert(self.consumers_of(d) =~= o.consumers_of(d).difference(ids@.take(k + 1).to_set()));
                }
            }
            k = k + 1;
        }
        assert(ids@.take(k as int) =~= ids@);
        let ghost end_loop = *self;
        let ghost stale_set = stale@;
        let changed = self.invalidate(&stale);
        let ghost after = *self;
        let mut m: usize = 0;
        while m < ids.len()
            invariant
                m <= ids@.len(),
                self.sources() == o.sources().remove_keys(ids@.take(m as int).to_set()),
                self.graph == after.graph,
                self.dependencies == after.dependencies,
                self.documents() == after.documents(),
                self.definitions() == after.definitions(),
                self.definition_diagnostics() == after.definition_diagnostics(),
                self.document_diagnostics() == after.document_diagnostics(),
                self.next_id() == after.next_id(),
                after.sources() == o.sources(),
            decreases ids.len() - m,
        {
            let id = ids[m];
            proof {
                assert(ids@.take(m + 1) =~= ids@.take(m as int).push(id));
                ids@.take(m as int).lemma_push_to_set_commute(id);
            }
            self.definition_sources.remove(&id);
            m = m + 1;
            assert(self.sources() =~= o.sources().remove_keys(ids@.take(m as int).to_set()));
        }
        assert(ids@.take(m as int) =~= ids@);
        proof {
            Compiler::lemma_same_consumers(self, &after);
            Compiler::lemma_same_consumers(&after, &end_loop);
            assert(self.definition_diagnostics() == o.definition_diagnostics().remove_keys(stale_set));
        }
        changed
    }

    /// Replaces the document of `source_id`: removes the one held, if any,
    /// then adds the new one. Hands back the sources whose diagnostics
    /// changed through either step, each once.
    pub fn replace_document(&mut self, source_id: SourceId, document: (Document, Vec<Token>), is_import: bool) -> (changed: Vec<SourceId>)
        requires
            old(self).wf(),
            all_reportable(document.0.error_sites()),
            old(self).next_id() + document.0.definitions.0@.len() <= u64::MAX,
        ensures
            final(self).wf(),
            final(self).documents() == old(self).documents().insert(source_id.0, (document.0, is_import)),
            final(self).definitions() == old(self).definitions().insert(
                source_id.0,
                fresh_ids(old(self).next_id(), document.0.definitions.0@.len()),
            ),
            final(self).next_id() == old(self).next_id() + document.0.definitions.0@.len(),
            changed@.no_duplicates(),
            changed@.to_set().contains(source_id),
    {
        let mut changed = self.remove_document(source_id);
        let added = self.add_document(source_id, document, is_import);
        let mut k: usize = 0;
        while k < added.len()
            invariant
                k <= added@.len(),
                changed@.no_duplicates(),
                forall|j: int| 0 <= j < k ==> changed@.contains(#[trigger] added@[j]),
            decreases added.len() - k,
        {
            let ghost before = changed@;
            if !holds_source(&changed, added[k]) {
                changed.push(added[k]);
                assert(changed@[before.len() as int] == added@[k as int]);
                proof {
                    before.lemma_push_to_set_commute(added@[k as int]);
                }
            }
            assert(changed@.contains(added@[k as int]));
            assert forall|j: int| 0 <= j < k implies changed@.contains(#[trigger] added@[j]) by {
                let i = choose|i: int| 0 <= i < before.len() && before[i] == added@[j];
                assert(changed@[i] == before[i]);
            }
            k = k + 1;
        }
        assert(added@.to_set().contains(source_id));
        assert(changed@.to_set().contains(source_id));
        changed
    }

    /// The identifiers of the definitions of the document of `source_id`,
    /// in order; none if the compiler does not hold it.
    pub fn definition_ids(&self, source_id: SourceId) -> (ids: Vec<u64>)
        ensures
            ids@ == if self.definitions().contains_key(source_id.0) {
                self.definitions()[source_id.0]
            } else {
                Seq::empty()
            },
    {
        match self.document_definitions.get(&source_id.0) {
            Some(ids) => {
                let mut copy: Vec<u64> = Vec::new();
                let mut k: usize = 0;
                while k < ids.len()
                    invariant
                        k <= ids@.len(),
                        copy@ == ids@.take(k as int),
                    decreases ids.len() - k,
                {
                    copy.push(ids[k]);
                    k = k + 1;
                    assert(copy@ =~= ids@.take(k as int));
                }
                assert(ids@.take(k as int) =~= ids@);
                copy
            },
            None => Vec::new(),
        }
    }

    /// Keeps `diagnostics` as those of definition `id`, unless it has some
    /// already.
    pub fn record_definition_diagnostics(&mut self, id: u64, diagnostics: Vec<Diagnostic>)
        requires
            old(self).wf(),
        ensures
            final(self).wf(),
            final(self).definition_diagnostics() == if old(self).definition_diagnostics().contains_key(id) {
                old(self).definition_diagnostics()
            } else {
                old(self).definition_diagnostics().insert(id, diagnostics@)
            },
            final(self).documents() == old(self).documents(),
            final(self).definitions() == old(self).definitions(),
            final(self).sources() == old(self).sources(),
            final(self).document_diagnostics() == old(self).document_diagnostics(),
            final(self).produced() == old(self).produced(),
            forall|d: (int, Seq<char>)| #[trigger] final(self).consumers_of(d) == old(self).consumers_of(d),
            final(self).next_id() == old(self).next_id(),
    {
        if !self.definition_diagnostics.contains_key(&id) {
            self.definition_diagnostics.insert(id, diagnostics);
        }
        proof {
            Compiler::lemma_same_consumers(self, old(self));
        }
        assert(self.graph == old(self).graph);
        assert(self.dependencies == old(self).dependencies);
        assert(self.sources() =~= old(self).sources());
        assert(self.documents() =~= old(self).documents());
        assert(self.definition_diagnostics() =~= if old(self).definition_diagnostics().contains_key(id) {
            old(self).definition_diagnostics()
        } else {
            old(self).definition_diagnostics().insert(id, diagnostics@)
        });
        assert(self.definitions() =~= old(self).definitions());
        assert(self.document_diagnostics() =~= old(self).document_diagnostics());
        assert(old(self).graph_wf());
        assert(self.next_definition == old(self).next_definition);
        assert(self.table() == old(self).table());
        assert(self.graph_wf());
        assert(self.definitions().dom() == self.documents().dom());
    }

    /// The diagnostics of the document of `source_id`: its syntax errors,
    /// then those of each of its definitions, in order.
    pub fn diagnostics(&self, source_id: SourceId) -> (r: Vec<&Diagnostic>)
        ensures
            r@.len() == self.all_diagnostics(source_id).len(),
            forall|i: int| 0 <= i < r@.len() ==> *r@[i] == self.all_diagnostics(source_id)[i],
    {
        let mut r: Vec<&Diagnostic> = Vec::new();
        let ghost mut expected: Seq<Diagnostic> = Seq::empty();
        match self.document_diagnostics.get(&source_id.0) {
            Some(list) => {
                let mut k: usize = 0;
                while k < list.len()
                    invariant
                        k <= list@.len(),
                        expected == list@.take(k as int),
                        r@.len() == expected.len(),
                        forall|i: int| 0 <= i < r@.len() ==> *r@[i] == expected[i],
                    decreases list.len() - k,
                {
                    let item: &Diagnostic = &list[k];
                    r.push(item);
                    proof {
                        expected = expected.push(list@[k as int]);
                    }
                    k = k + 1;
                    assert(expected =~= list@.take(k as int));
                }
                assert(list@.take(k as int) =~= list@);
            },
            None => {},
        }
        assert(expected == self.syntax_diagnostics(source_id));
        let ghost first = expected;
        match self.document_definitions.get(&source_id.0) {
            Some(ids) => {
                let mut k: usize = 0;
                while k < ids.len()
                    invariant
                        k <= ids@.len(),
                        ids@ == self.definitions()[source_id.0],
                        self.definitions().contains_key(source_id.0),
                        expected == first + self.diagnostics_of(ids@.take(k as int)),
                        r@.len() == expected.len(),
                        forall|i: int| 0 <= i < r@.len() ==> *r@[i] == expected[i],
                    decreases ids.len() - k,
                {
                    let id = ids[k];
                    let ghost before = expected;
                    assert(ids@.take(k + 1).drop_last() =~= ids@.take(k as int));
                    match self.definition_diagnostics.get(&id) {
                        Some(list) => {
                            let mut m: usize = 0;
                            while m < list.len()
                                invariant
                                    m <= list@.len(),
                                    expected == before + list@.take(m as int),
                                    r@.len() == expected.len(),
                                    forall|i: int| 0 <= i < r@.len() ==> *r@[i] == expected[i],
                                decreases list.len() - m,
                            {
                                let item: &Diagnostic = &list[m];
                                r.push(item);
                                proof {
                                    expected = expected.push(list@[m as int]);
                                }
                                m = m + 1;
                                assert(expected =~= before + list@.take(m as int));
                            }
                            assert(list@.take(m as int) =~= list@);
                        },
                        None => {},
                    }
                    k = k + 1;
                    assert(expected =~= first + self.diagnostics_of(ids@.take(k as int)));
                }
                assert(ids@.take(k as int) =~= ids@);
            },
            None => {},
        }
        r
    }

    /// Removing a document just added, to a compiler that did not hold a
    /// document of that source, gives back the documents, the sources of the
    /// definitions, and what each definition provides and needs, as they
    /// were before. (The requirements are what `add_document` and then
    /// `remove_document` ensure.)
    pub proof fn law_remove_undoes_add(
        before: Compiler,
        added: Compiler,
        removed: Compiler,
        source_id: SourceId,
        document: (Document, bool),
    )
        requires
            before.wf(),
            !before.documents().contains_key(source_id.0),
            before.next_id() + document.0.definitions.0@.len() <= u64::MAX,
            added.documents() == before.documents().insert(source_id.0, document),
            added.definitions() == before.definitions().insert(
                source_id.0,
                fresh_ids(before.next_id(), document.0.definitions.0@.len()),
            ),
            added.sources() == before.sources().union_prefer_right(
                new_sources(before.next_id(), document.0.definitions.0@.len(), source_id),
            ),
            added.produced() == before.produced().union_prefer_right(
                new_products(before.next_id(), document.0.definitions.0@),
            ),
            forall|d: (int, Seq<char>)| #[trigger] added.consumers_of(d) == before.consumers_of(d).union(
                new_consumers(before.next_id(), document.0.definitions.0@, d),
            ),
            removed.documents() == added.documents().remove(source_id.0),
            removed.definitions() == added.definitions().remove(source_id.0),
            removed.sources() == added.sources().remove_keys(added.ids_of(source_id)),
            removed.produced() == added.produced().remove_keys(added.ids_of(source_id)),
            forall|d: (int, Seq<char>)| #[trigger] removed.consumers_of(d) == added.consumers_of(d).difference(
                added.ids_of(source_id),
            ),
        ensures
            removed.documents() == before.documents(),
            removed.definitions() == before.definitions(),
            removed.sources() == before.sources(),
            removed.produced() == before.produced(),
            forall|d: (int, Seq<char>)| #[trigger] removed.consumers_of(d) == before.consumers_of(d),
    {
        let start = before.next_id();
        let n = document.0.definitions.0@.len();
        let ids = added.ids_of(source_id);
        assert(ids =~= Set::new(|id: u64| start <= id < start + n)) by {
            assert forall|id: u64| ids.contains(id) implies start <= id < start + n by {
                let i = choose|i: int| 0 <= i < n && fresh_ids(start, n)[i] == id;
            }
            assert forall|id: u64| start <= id < start + n implies ids.contains(id) by {
                assert(fresh_ids(start, n)[id - start] == id);
            }
        }
        assert(removed.documents() =~= before.documents());
        assert(removed.definitions() =~= before.definitions());
        assert(removed.sources() =~= before.sources());
        assert(removed.produced() =~= before.produced()) by {
            assert forall|id: u64| before.produced().contains_key(id) implies id < start by {
                assert(before.graph.producers().contains_key(id));
            }
        }
        assert forall|d: (int, Seq<char>)| #[trigger] removed.consumers_of(d) == before.consumers_of(d) by {
            assert forall|id: u64| before.consumers_of(d).contains(id) implies id < start by {
                let w = choose|w: u64|
                    #![trigger before.graph.consumers_of(w)]
                    w < before.table().len() && before.table()[w as int] == d
                        && before.graph.consumers_of(w).contains(id);
            }
            assert(removed.consumers_of(d) =~= before.consumers_of(d));
        }
    }
}

} // verus!
