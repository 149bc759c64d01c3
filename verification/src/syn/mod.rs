pub mod kinds;
pub mod recovery;
pub mod stream;
pub mod combinators;
pub mod executable;
pub mod schema;

use vstd::prelude::*;

use crate::ast::context::{List, Shared};
use crate::ast::types::{Definition, Document, ExecutableDocument, TypeSystemDefinitionOrExtension, TypeSystemDocument};
use crate::ast::tokens::{tokens_executable_document, tokens_type_system_document, tokens_definition, tokens_document, tokens_list_shared_definition};
use crate::chk::errors::{all_recorded, lemma_all_recorded_add, lemma_all_recorded_one, Errors};
use crate::chk::traverse::{sites_definition, sites_document, sites_list_shared_definition};
use crate::lex::lexer::{lexed, lexer};
use crate::lex::Span;
use crate::lex::token::Token;
use crate::lex::SourceId;

use self::executable::{executable_definition, executable_definition_start, executable_definition_start_kinds, executable_document};
use self::kinds::KindSet;
use self::recovery::RecoveryPoint;
use self::schema::{type_system_definition_or_extension, type_system_definition_or_extension_start, type_system_definition_or_extension_start_kinds, type_system_document};
use self::stream::{lemma_join_assoc, lemma_join_take, advanced, begins, lemma_stray_ahead, read_into, stray_ahead, stray_at, stray_description, lemma_split, splits, Error, Stream};

verus! {

broadcast use {
    lemma_join_assoc,
    lemma_join_take,
    Seq::add_empty_left,
    Seq::add_empty_right,
    lemma_all_recorded_add, lemma_all_recorded_one, KindSet::lemma_single};

/// How deep the parser follows nodes nested in one another.
pub const RECURSION_LIMIT: usize = 32;

impl Error {
    /// The error for nodes nested too deep, where the parser stands.
    pub fn max_recursion(input: &Stream) -> (e: Error)
        requires
            input.started() || input.len() > 0,
        ensures
            e is MaxRecursion,
    {
        Error::MaxRecursion(input.span())
    }
}

/// Parses a document: definitions, one after the other, skipping the tokens
/// that start none.
#[verifier::spinoff_prover]
pub fn document(s: &mut Stream, rp: RecoveryPoint) -> (r: Result<Document, Error>)
    requires
        old(s).wf(),
    ensures
        advanced(*old(s), *final(s)),
        r matches Err(Error::MaxRecursion(_)) ==> old(s).len() > RECURSION_LIMIT,
        !stray_description(*final(s)) ==> !(r matches Err(Error::Expected(_))),
        r matches Ok(n) ==> all_recorded(sites_document(n)) && read_into(*old(s), *final(s), tokens_document(n), 0),
        r is Ok ==> final(s).len() == 0 || final(s).at(rp),
{
    let item = executable_definition_start().or(type_system_definition_or_extension_start());
    let next = rp.or(item);
    let mut definitions: Vec<Shared<Definition>> = Vec::new();
    let ghost entry = *s;
    loop
        invariant
            item.kinds@ == executable_definition_start_kinds().union(
                type_system_definition_or_extension_start_kinds(),
            ),
            !item.exclude_on,
            advanced(*old(s), *s),
            all_recorded(sites_list_shared_definition(definitions@)),
            entry.len() - s.len() == tokens_list_shared_definition(definitions@).len() + s.skipped().len() - entry.skipped().len(),
            s.read_log() == entry.read_log() + tokens_list_shared_definition(definitions@),
        ensures
            advanced(*old(s), *s),
            all_recorded(sites_list_shared_definition(definitions@)),
            entry.len() - s.len() == tokens_list_shared_definition(definitions@).len() + s.skipped().len() - entry.skipped().len(),
            s.read_log() == entry.read_log() + tokens_list_shared_definition(definitions@),
            s.len() == 0 || s.at(rp),
        decreases s.len(),
    {
        if !s.discard(item, rp) {
            break;
        }
        let d = definition(s, next)?;
        let ghost before = definitions@;
        definitions.push(Shared::new(d));
        assert(definitions@.drop_last() =~= before);
    }
    Ok(Document { definitions: List(definitions) })
}

/// Parses a definition: an executable one, or one of a type system.
#[verifier::spinoff_prover]
pub fn definition(s: &mut Stream, rp: RecoveryPoint) -> (r: Result<Definition, Error>)
    requires
        old(s).wf(),
    ensures
        advanced(*old(s), *final(s)),
        r matches Err(Error::MaxRecursion(_)) ==> old(s).len() > RECURSION_LIMIT,
        begins(*old(s), executable_definition_start_kinds().union(type_system_definition_or_extension_start_kinds()), false) && !stray_description(*final(s)) ==> !(r matches Err(Error::Expected(_))),
        r matches Ok(n) ==> final(s).len() < old(s).len() && all_recorded(sites_definition(n)) && read_into(*old(s), *final(s), tokens_definition(n), 0),
{
    if s.recognize(executable_definition_start()) {
        Ok(Definition::ExecutableDefinition(executable_definition(s, rp)?))
    } else if s.recognize(type_system_definition_or_extension_start()) {
        Ok(Definition::TypeSystemDefinitionOrExtension(type_system_definition_or_extension(s, rp)?))
    } else {
        Err(Error::Expected(executable_definition_start().or(type_system_definition_or_extension_start())))
    }
}

/// A syntax tree that can be parsed from a stream of tokens.
pub trait Parse: Sized + Errors {
    /// The spans of all the tokens of the tree.
    spec fn all_tokens(&self) -> Seq<Span>;

    /// Parses the tree, and hands back the tokens that the parse did not
    /// use: those not read, then those skipped. Each token of the stream,
    /// and each token it had skipped before, is either in the tree or handed
    /// back; on a fresh stream, the tokens in the tree are those read, in
    /// the order of the stream. The parse fails only on nodes nested too
    /// deep (with more tokens than the recursion limit) or on a string that
    /// documents nothing.
    fn parse(stream: Stream) -> (r: Result<(Self, Vec<Token>), Error>)
        requires
            stream.wf(),
        ensures
            r matches Ok((tree, rest)) ==> {
                &&& all_recorded(tree.error_sites())
                &&& stream.len() + stream.skipped().len() == tree.all_tokens().len() + rest@.len()
            },
            r matches Ok((tree, rest)) ==> (stream.taken() == 0 ==> splits(
                stream.remaining(),
                tree.all_tokens(),
                rest@,
            )),
            r is Err ==> stream.len() > RECURSION_LIMIT || stray_ahead(stream),
    ;

    /// Parses the tree from the text of a source. Each token of the text is
    /// either in the tree, in order, or handed back; the parse fails only as
    /// `parse` does.
    fn parse_from_str(source_id: SourceId, input: &str) -> (r: Result<(Self, Vec<Token>), Error>)
        requires
            input@.len() * 4 <= usize::MAX,
        ensures
            r matches Ok((tree, rest)) ==> {
                &&& all_recorded(tree.error_sites())
                &&& lexed(source_id, input@).len() == tree.all_tokens().len() + rest@.len()
            },
            r matches Ok((tree, rest)) ==> splits(lexed(source_id, input@), tree.all_tokens(), rest@),
            r is Err ==> lexed(source_id, input@).len() > RECURSION_LIMIT || exists|i: int|
                #[trigger] stray_at(lexed(source_id, input@), i),
    {
        let tokens = lexer(source_id, input);
        Self::parse(Stream::new(tokens))
    }
}

impl Parse for Document {
    open spec fn all_tokens(&self) -> Seq<Span> {
        tokens_document(*self)
    }

    fn parse(stream: Stream) -> (r: Result<(Document, Vec<Token>), Error>) {
        let ghost start = stream;
        let mut input = stream;
        let value = match document(&mut input, RecoveryPoint::none()) {
            Ok(value) => value,
            Err(e) => {
                proof {
                    if e is Expected {
                        lemma_stray_ahead(start, input);
                    }
                }
                return Err(e);
            },
        };
        let ghost end = input;
        let rest = input.into_unexpected();
        proof {
            if start.taken() == 0 {
                lemma_split(start, end, value.all_tokens(), rest@);
            }
        }
        Ok((value, rest))
    }
}

impl Parse for ExecutableDocument {
    open spec fn all_tokens(&self) -> Seq<Span> {
        tokens_executable_document(*self)
    }

    fn parse(stream: Stream) -> (r: Result<(ExecutableDocument, Vec<Token>), Error>) {
        let ghost start = stream;
        let mut input = stream;
        let value = match executable_document(&mut input, RecoveryPoint::none()) {
            Ok(value) => value,
            Err(e) => {
                proof {
                    if e is Expected {
                        lemma_stray_ahead(start, input);
                    }
                }
                return Err(e);
            },
        };
        let ghost end = input;
        let rest = input.into_unexpected();
        proof {
            if start.taken() == 0 {
                lemma_split(start, end, value.all_tokens(), rest@);
            }
        }
        Ok((value, rest))
    }
}

impl Parse for TypeSystemDocument {
    open spec fn all_tokens(&self) -> Seq<Span> {
        tokens_type_system_document(*self)
    }

    fn parse(stream: Stream) -> (r: Result<(TypeSystemDocument, Vec<Token>), Error>) {
        let ghost start = stream;
        let mut input = stream;
        let value = match type_system_document(&mut input, RecoveryPoint::none()) {
            Ok(value) => value,
            Err(e) => {
                proof {
                    if e is Expected {
                        lemma_stray_ahead(start, input);
                    }
                }
                return Err(e);
            },
        };
        let ghost end = input;
        let rest = input.into_unexpected();
        proof {
            if start.taken() == 0 {
                lemma_split(start, end, value.all_tokens(), rest@);
            }
        }
        Ok((value, rest))
    }
}

} // verus!
