//! Plain-value model of the RDF terms that the parsers hand out.

use vstd::prelude::*;

verus! {

/// The subject of a quad: an IRI or a blank node identifier.
#[derive(Debug, Clone)]
pub enum RdfNode {
    Named(String),
    Blank(String),
}

/// The object of a quad.
///
/// A literal keeps its lexical form, its language tag when it is
/// language-tagged, and its datatype IRI (for a language-tagged string this
/// is rdf:langString, for a simple literal xsd:string).
#[derive(Debug, Clone)]
pub enum RdfTerm {
    Named(String),
    Blank(String),
    Literal { value: String, language: Option<String>, datatype: String },
}

/// The IRI of rdf:langString, the datatype of language-tagged strings.
pub open spec fn rdf_lang_string_iri() -> Seq<char> {
    "http://www.w3.org/1999/02/22-rdf-syntax-ns#langString"@
}

/// A language-tagged literal has the datatype rdf:langString.
pub open spec fn tagged_literal_has_lang_string(t: RdfTerm) -> bool {
    t matches RdfTerm::Literal { language, datatype, .. } ==> (language is Some ==> datatype@
        == rdf_lang_string_iri())
}

/// Every quad among `items` is in the default graph.
pub open spec fn quads_in_default_graph(items: Seq<Result<RdfQuad, String>>) -> bool {
    forall|i: int| 0 <= i < items.len() ==> (#[trigger] items[i] matches Ok(q) ==> q.graph is Default)
}

/// Every quad among `items` has the rdf:langString datatype when its object
/// is a language-tagged literal.
pub open spec fn quads_tag_lang_string(items: Seq<Result<RdfQuad, String>>) -> bool {
    forall|i: int| 0 <= i < items.len() ==> (#[trigger] items[i] matches Ok(q)
        ==> tagged_literal_has_lang_string(q.object))
}

/// The graph a quad belongs to.
#[derive(Debug, Clone)]
pub enum RdfGraph {
    Default,
    Named(String),
    Blank(String),
}

/// A quad: subject, predicate IRI, object and graph.
#[derive(Debug, Clone)]
pub struct RdfQuad {
    pub subject: RdfNode,
    pub predicate: String,
    pub object: RdfTerm,
    pub graph: RdfGraph,
}

} // verus!
