//! The oxrdf term types that the parsers return, and their conversion into
//! the plain values of `crate::rdf`.
//!
//! The oxrdf types are opaque here: their content cannot be spoken of, so
//! of these conversions only what oxrdf documents of every value is stated.

use vstd::prelude::*;

use crate::rdf::{tagged_literal_has_lang_string, RdfGraph, RdfNode, RdfQuad, RdfTerm};

verus! {

#[verifier::external_type_specification]
#[verifier::external_body]
pub struct ExTriple(oxrdf::Triple);

#[verifier::external_type_specification]
#[verifier::external_body]
pub struct ExQuad(oxrdf::Quad);

#[verifier::external_type_specification]
#[verifier::external_body]
pub struct ExNamedOrBlankNode(oxrdf::NamedOrBlankNode);

#[verifier::external_type_specification]
#[verifier::external_body]
pub struct ExNamedNode(oxrdf::NamedNode);

#[verifier::external_type_specification]
#[verifier::external_body]
pub struct ExTerm(oxrdf::Term);

#[verifier::external_type_specification]
#[verifier::external_body]
pub struct ExGraphName(oxrdf::GraphName);

/// Borrows the three public fields of an `oxrdf::Triple`; nothing is stated,
/// as oxrdf values are opaque here.
#[verifier::external_body]
fn triple_fields(t: &oxrdf::Triple) -> (&oxrdf::NamedOrBlankNode, &oxrdf::NamedNode, &oxrdf::Term) {
    (&t.subject, &t.predicate, &t.object)
}

/// Borrows the four public fields of an `oxrdf::Quad`; nothing is stated,
/// as oxrdf values are opaque here.
#[verifier::external_body]
fn quad_fields(q: &oxrdf::Quad) -> (
    &oxrdf::NamedOrBlankNode,
    &oxrdf::NamedNode,
    &oxrdf::Term,
    &oxrdf::GraphName,
) {
    (&q.subject, &q.predicate, &q.object, &q.graph_name)
}

/// Copies an `oxrdf::NamedOrBlankNode`: its variant, and the IRI or blank
/// node identifier that `as_str` gives. Nothing is stated of the result.
#[verifier::external_body]
fn node_of(x: &oxrdf::NamedOrBlankNode) -> RdfNode {
    match x {
        oxrdf::NamedOrBlankNode::NamedNode(n) => RdfNode::Named(n.as_str().to_owned()),
        oxrdf::NamedOrBlankNode::BlankNode(b) => RdfNode::Blank(b.as_str().to_owned()),
    }
}

/// Copies the IRI of an `oxrdf::NamedNode` (`NamedNode::as_str`). Nothing is
/// stated of the result.
#[verifier::external_body]
fn iri_of(x: &oxrdf::NamedNode) -> String {
    x.as_str().to_owned()
}

/// Copies an `oxrdf::Term`: its variant and text; for a literal
/// `Literal::value`, `Literal::language` and the IRI of `Literal::datatype`.
/// Of the result it is stated only what oxrdf documents of every literal: the
/// datatype of a language-tagged string is rdf:langString. The copied text
/// is not stated, as oxrdf values are opaque here.
#[verifier::external_body]
fn term_of(x: &oxrdf::Term) -> (res: RdfTerm)
    ensures
        tagged_literal_has_lang_string(res),
{
    match x {
        oxrdf::Term::NamedNode(n) => RdfTerm::Named(n.as_str().to_owned()),
        oxrdf::Term::BlankNode(b) => RdfTerm::Blank(b.as_str().to_owned()),
        oxrdf::Term::Literal(l) => RdfTerm::Literal {
            value: l.value().to_owned(),
            language: l.language().map(str::to_owned),
            datatype: l.datatype().as_str().to_owned(),
        },
    }
}

/// Copies an `oxrdf::GraphName`: its variant and the name that `as_str` gives.
/// Nothing is stated of the result.
#[verifier::external_body]
fn graph_of(x: &oxrdf::GraphName) -> RdfGraph {
    match x {
        oxrdf::GraphName::NamedNode(n) => RdfGraph::Named(n.as_str().to_owned()),
        oxrdf::GraphName::BlankNode(b) => RdfGraph::Blank(b.as_str().to_owned()),
        oxrdf::GraphName::DefaultGraph => RdfGraph::Default,
    }
}

/// The quad that a parsed triple stands for: the triple in the default graph.
pub(crate) fn quad_of_triple(t: &oxrdf::Triple) -> (q: RdfQuad)
    ensures
        q.graph is Default,
        tagged_literal_has_lang_string(q.object),
{
    let (s, p, o) = triple_fields(t);
    RdfQuad { subject: node_of(s), predicate: iri_of(p), object: term_of(o), graph: RdfGraph::Default }
}

/// The plain copy of a parsed quad.
pub(crate) fn quad_of_quad(q: &oxrdf::Quad) -> (res: RdfQuad)
    ensures
        tagged_literal_has_lang_string(res.object),
{
    let (s, p, o, g) = quad_fields(q);
    RdfQuad { subject: node_of(s), predicate: iri_of(p), object: term_of(o), graph: graph_of(g) }
}

} // verus!
