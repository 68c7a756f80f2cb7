//! TriG parsing: the parser configuration and the calls into oxttl.

use vstd::prelude::*;

use crate::rdf::{quads_tag_lang_string, RdfQuad};
use crate::terms::quad_of_quad;

verus! {

#[verifier::external_type_specification]
#[verifier::external_body]
pub struct ExSliceTriGParser<'a>(oxttl::trig::SliceTriGParser<'a>);

/// Extra settings for TriG parsing; at present it leaves the parser as it is.
pub struct TrigConfig {}

impl TrigConfig {
    /// Adjusts a running parser; the parser comes back unchanged. Parsing
    /// in this library starts and runs the parser in one call, which ties
    /// what it yields to the input, so this is not called there; it would
    /// change nothing.
    pub fn decorate_reader<'a>(&'a self, parser: oxttl::trig::SliceTriGParser<'a>) -> (res:
        oxttl::trig::SliceTriGParser<'a>)
        ensures
            res == parser,
    {
        parser
    }

    /// Adjusts the parser settings before parsing; it always succeeds and
    /// hands the settings back unchanged.
    pub fn decorate_parser(&self, settings: TrigParseSettings) -> (res: Result<
        TrigParseSettings,
        oxiri::IriParseError,
    >)
        ensures
            res == Ok::<TrigParseSettings, oxiri::IriParseError>(settings),
    {
        Ok(settings)
    }
}

/// The settings that TriG parsing runs with: oxttl's defaults (no base
/// IRI, no predeclared prefixes, strict checking), the only settings on
/// offer.
#[derive(Debug, Clone, Copy, PartialEq, Eq, Structural)]
pub struct TrigParseSettings {}

/// `items` is a sequence that an oxttl TriG parser with its default
/// settings (`TriGParser::new`) may yield for the document `input`, in
/// order: each quad copied as `quad_of_quad` copies it (a quad), each syntax error as its message.
/// Unnamed blank nodes get random identifiers, so this is a relation and
/// not a function of `input`.
pub uninterp spec fn trig_may_yield(input: Seq<u8>, items: Seq<Result<RdfQuad, String>>) -> bool;

/// Runs a parser with `settings`, that is with the default settings
/// (`TriGParser::new`), on the bytes of `input` (`TriGParser::for_slice` and
/// its `Iterator::next`) to the end and keeps every item in order: each quad
/// as its plain copy (`quad_of_quad`: a language-tagged literal object has
/// the datatype rdf:langString), each syntax error as its message
/// (`Display`).
#[verifier::external_body]
pub(crate) fn trig_quads(settings: TrigParseSettings, input: &[u8]) -> (res: Vec<Result<RdfQuad, String>>)
    ensures
        trig_may_yield(input@, res@),
        quads_tag_lang_string(res@),
{
    let TrigParseSettings {} = settings;
    oxttl::TriGParser::new().for_slice(input).map(|r| r.map(|x| quad_of_quad(&x)).map_err(|e| e.to_string())).collect()
}

} // verus!
