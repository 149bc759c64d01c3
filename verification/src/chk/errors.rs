use vstd::prelude::*;

use crate::ast::types::{Missing, Recoverable, TypeSystemDefinition, TypeSystemExtension};
use crate::diagnostics::{Diagnostic, DiagnosticKind};
use crate::lex::token::Token;

use super::traverse::Site;

verus! {

/// Whether a syntax error can be reported: a missing token is reported
/// through the diagnostic it carries, so its reason must be known.
pub open spec fn reportable(site: Site) -> bool {
    match site {
        Site::Missing(m) => m.missing.wf() && !(m.missing is Unknown),
        Site::Unrecognized(_) => true,
    }
}

/// Every syntax error in `sites` can be reported.
pub open spec fn all_reportable(sites: Seq<Site>) -> bool {
    forall|i: int| 0 <= i < sites.len() ==> #[trigger] reportable(sites[i])
}

/// Whether a syntax error is one that a parse records: one that can be
/// reported, or a missing token whose reason is not known.
pub open spec fn recorded(site: Site) -> bool {
    ||| reportable(site)
    ||| site matches Site::Missing(m) && m.missing is Unknown
}

/// Every syntax error in `sites` is one that a parse records.
pub open spec fn all_recorded(sites: Seq<Site>) -> bool {
    forall|i: int| 0 <= i < sites.len() ==> #[trigger] recorded(sites[i])
}

/// Syntax errors found one after the other are recorded ones when those of
/// each part are.
pub broadcast proof fn lemma_all_recorded_add(a: Seq<Site>, b: Seq<Site>)
    ensures
        #[trigger] all_recorded(a + b) == (all_recorded(a) && all_recorded(b)),
{
    if all_recorded(a) && all_recorded(b) {
        assert forall|i: int| 0 <= i < (a + b).len() implies #[trigger] recorded((a + b)[i]) by {
            if i >= a.len() {
                assert((a + b)[i] == b[i - a.len()]);
            }
        }
    }
    if all_recorded(a + b) {
        assert forall|i: int| 0 <= i < a.len() implies #[trigger] recorded(a[i]) by {
            assert((a + b)[i] == a[i]);
        }
        assert forall|i: int| 0 <= i < b.len() implies #[trigger] recorded(b[i]) by {
            assert((a + b)[a.len() + i] == b[i]);
        }
    }
}

/// A single syntax error is a recorded one when it is.
pub broadcast proof fn lemma_all_recorded_one(site: Site)
    ensures
        #[trigger] all_recorded(seq![site]) == recorded(site),
{
    assert(seq![site][0] == site);
}

/// `d` is the diagnostic that reports the syntax error `site`: the kind
/// that a missing token carries, at the place where the token should have
/// been (after the opening delimiter, for a missing closing one), or an
/// unrecognized token at its span.
pub open spec fn reports(site: Site, d: Diagnostic) -> bool {
    &&& d.wf()
    &&& d.vars() == Seq::<Seq<char>>::empty()
    &&& match site {
        Site::Missing(m) => match m.missing {
            Missing::Unary(kind) => d.kind() == kind && d.spans() == seq![m.span],
            Missing::Binary(kind, first) => d.kind() == kind && d.spans() == seq![first, m.span],
            Missing::Unknown => false,
        },
        Site::Unrecognized(span) => d.kind() == DiagnosticKind::UnrecognizedTokens && d.spans()
            == seq![span],
    }
}

/// Each diagnostic reports the syntax error at the same position.
pub open spec fn reports_all(sites: Seq<Site>, ds: Seq<Diagnostic>) -> bool {
    &&& ds.len() == sites.len()
    &&& forall|i: int| 0 <= i < sites.len() ==> #[trigger] reports(sites[i], ds[i])
}

/// The diagnostic that reports one syntax error.
pub fn report(site: &Site) -> (d: Diagnostic)
    requires
        reportable(*site),
    ensures
        reports(*site, d),
{
    match site {
        Site::Missing(m) => m.to_diagnostic(),
        Site::Unrecognized(span) => Diagnostic::unrecognized_tokens(*span),
    }
}

/// The diagnostics that report the syntax errors, in order.
pub fn report_all(sites: &Vec<Site>) -> (ds: Vec<Diagnostic>)
    requires
        all_reportable(sites@),
    ensures
        reports_all(sites@, ds@),
{
    let mut ds: Vec<Diagnostic> = Vec::new();
    let mut i: usize = 0;
    while i < sites.len()
        invariant
            i <= sites.len(),
            all_reportable(sites@),
            reports_all(sites@.take(i as int), ds@),
        decreases sites.len() - i,
    {
        let d = report(&sites[i]);
        ds.push(d);
        i = i + 1;
        assert(reports(sites@.take(i as int)[i - 1], ds@[i - 1]));
    }
    assert(sites@.take(sites.len() as int) =~= sites@);
    ds
}

/// A syntax tree whose syntax errors can be collected.
pub trait Errors {
    /// The syntax errors of the tree, in the order of a traversal.
    spec fn error_sites(&self) -> Seq<Site>;

    /// The diagnostics that report the syntax errors of the tree, in the
    /// order of a traversal.
    fn errors(&self) -> (ds: Vec<Diagnostic>)
        requires
            all_reportable(self.error_sites()),
        ensures
            reports_all(self.error_sites(), ds@),
    ;
}

/// The diagnostics of a parse: first the syntax errors of the tree, in the
/// order of a traversal, then one for each token that the parser could not
/// use, at its span.
pub open spec fn parse_errors(tree: Seq<Site>, unused: Seq<Token>) -> Seq<Site> {
    tree + unused.map_values(|t: Token| Site::Unrecognized(t.raw().span))
}

/// The diagnostics of a syntax tree and of the tokens that the parser left
/// over.
pub fn collect_errors<N: Errors>(ast: &(N, Vec<Token>)) -> (ds: Vec<Diagnostic>)
    requires
        all_reportable(ast.0.error_sites()),
    ensures
        reports_all(parse_errors(ast.0.error_sites(), ast.1@), ds@),
{
    let mut ds = ast.0.errors();
    let ghost sites = parse_errors(ast.0.error_sites(), ast.1@);
    let ghost n = ast.0.error_sites().len();
    let tokens = &ast.1;
    let mut i: usize = 0;
    while i < tokens.len()
        invariant
            i <= tokens.len(),
            n == ast.0.error_sites().len(),
            sites == parse_errors(ast.0.error_sites(), tokens@),
            ds@.len() == n + i,
            forall|j: int| 0 <= j < n + i ==> #[trigger] reports(sites[j], ds@[j]),
        decreases tokens.len() - i,
    {
        let d = Diagnostic::unrecognized_tokens(tokens[i].span());
        ds.push(d);
        assert(sites[n + i] == Site::Unrecognized(tokens@[i as int].raw().span));
        i = i + 1;
        assert(reports(sites[n + i - 1], ds@[n + i - 1]));
    }
    ds
}

/// The visitor that collects syntax errors.
pub struct CollectErrors;

impl CollectErrors {
    /// Record a type system definition that could not be recognized.
    pub fn visit_type_system_definition(
        &self,
        node: &TypeSystemDefinition,
        accumulator: &mut Vec<Diagnostic>,
    )
        ensures
            match node {
                TypeSystemDefinition::Error(d) => {
                    &&& final(accumulator)@.len() == old(accumulator)@.len() + 1
                    &&& final(accumulator)@.drop_last() == old(accumulator)@
                    &&& reports(Site::Unrecognized(d.0.0.span), final(accumulator)@.last())
                },
                _ => final(accumulator)@ == old(accumulator)@,
            },
    {
        if let TypeSystemDefinition::Error(error) = node {
            accumulator.push(Diagnostic::unrecognized_tokens(error.0.span()));
            assert(accumulator@.drop_last() =~= old(accumulator)@);
        }
    }

    /// Record a type system extension that could not be recognized.
    pub fn visit_type_system_extension(
        &self,
        node: &TypeSystemExtension,
        accumulator: &mut Vec<Diagnostic>,
    )
        ensures
            match node {
                TypeSystemExtension::Error(n) => {
                    &&& final(accumulator)@.len() == old(accumulator)@.len() + 1
                    &&& final(accumulator)@.drop_last() == old(accumulator)@
                    &&& reports(Site::Unrecognized(n.0.span), final(accumulator)@.last())
                },
                _ => final(accumulator)@ == old(accumulator)@,
            },
    {
        if let TypeSystemExtension::Error(error) = node {
            accumulator.push(Diagnostic::unrecognized_tokens(error.span()));
            assert(accumulator@.drop_last() =~= old(accumulator)@);
        }
    }

    /// Record a node that the grammar expects but that is missing.
    pub fn visit_recoverable<U>(&self, node: &Recoverable<U>, accumulator: &mut Vec<Diagnostic>)
        requires
            node matches Recoverable::Missing(m) ==> reportable(Site::Missing(*m)),
        ensures
            match node {
                Recoverable::Missing(m) => {
                    &&& final(accumulator)@.len() == old(accumulator)@.len() + 1
                    &&& final(accumulator)@.drop_last() == old(accumulator)@
                    &&& reports(Site::Missing(*m), final(accumulator)@.last())
                },
                Recoverable::Present(_) => final(accumulator)@ == old(accumulator)@,
            },
    {
        match node {
            Recoverable::Present(_) => {},
            Recoverable::Missing(error) => {
                accumulator.push(error.to_diagnostic());
                assert(accumulator@.drop_last() =~= old(accumulator)@);
            },
        }
    }
}

} // verus!
