//! Turtle parsing: the parser configuration and the calls into oxttl.

use vstd::prelude::*;

use crate::rdf::{quads_in_default_graph, quads_tag_lang_string, RdfQuad};
use crate::terms::quad_of_triple;

verus! {

#[verifier::external_type_specification]
#[verifier::external_body]
pub struct ExSliceTurtleParser<'a>(oxttl::turtle::SliceTurtleParser<'a>);

#[verifier::external_type_specification]
#[verifier::external_body]
pub struct ExTurtleSyntaxError(oxttl::TurtleSyntaxError);

#[verifier::external_type_specification]
#[verifier::external_body]
pub struct ExIriParseError(oxiri::IriParseError);

/// Extra settings for Turtle parsing; at present it leaves the parser as it is.
pub struct TTLConfig {}

impl TTLConfig {
    /// Adjusts a running parser; the parser comes back unchanged. Parsing
    /// in this library starts and runs the parser in one call, which ties
    /// what it yields to the input, so this is not called there; it would
    /// change nothing.
    pub fn decorate_reader<'a>(&'a self, parser: oxttl::turtle::SliceTurtleParser<'a>) -> (res:
        oxttl::turtle::SliceTurtleParser<'a>)
        ensures
            res == parser,
    {
        parser
    }

    /// Adjusts the parser settings before parsing; it always succeeds and
    /// hands the settings back unchanged.
    pub fn decorate_parser(&self, settings: TurtleSettings) -> (res: Result<
        TurtleSettings,
        oxiri::IriParseError,
    >)
        ensures
            res == Ok::<TurtleSettings, oxiri::IriParseError>(settings),
    {
        Ok(settings)
    }
}

/// The settings that Turtle parsing runs with: oxttl's defaults (no base
/// IRI, no predeclared prefixes, strict checking), the only settings on
/// offer.
#[derive(Debug, Clone, Copy, PartialEq, Eq, Structural)]
pub struct TurtleSettings {}

/// `items` is a sequence that an oxttl Turtle parser with its default
/// settings (`TurtleParser::new`) may yield for the document `input`, in
/// order: each triple copied as `quad_of_triple` copies it (a quad in the default graph), each syntax
/// error as its message.
/// Unnamed blank nodes get random identifiers, so this is a relation and
/// not a function of `input`.
pub uninterp spec fn turtle_may_yield(input: Seq<u8>, items: Seq<Result<RdfQuad, String>>) -> bool;

/// Runs a parser with `settings`, that is with the default settings
/// (`TurtleParser::new`), on the bytes of `input` (`TurtleParser::for_slice` and
/// its `Iterator::next`) to the end and keeps every item in order: each triple
/// as its plain copy (`quad_of_triple`: a quad in the default graph, whose
/// language-tagged literal object has the datatype rdf:langString), each
/// syntax error as its message (`Display`).
#[verifier::external_body]
pub(crate) fn turtle_quads(settings: TurtleSettings, input: &[u8]) -> (res: Vec<Result<RdfQuad, String>>)
    ensures
        turtle_may_yield(input@, res@),
        quads_in_default_graph(res@),
        quads_tag_lang_string(res@),
{
    let TurtleSettings {} = settings;
    oxttl::TurtleParser::new().for_slice(input).map(|r| r.map(|x| quad_of_triple(&x)).map_err(|e| e.to_string())).collect()
}

} // verus!
