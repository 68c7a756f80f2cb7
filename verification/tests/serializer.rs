use rdf_callback::rdf::{RdfGraph, RdfNode, RdfQuad, RdfTerm};
use rdf_callback::trigserializer::TrigSerializer;

fn quad(s: &str, o: RdfTerm, g: RdfGraph) -> RdfQuad {
    RdfQuad {
        subject: RdfNode::Named(s.to_string()),
        predicate: "http://ex/p".to_string(),
        object: o,
        graph: g,
    }
}

fn iri(x: &str) -> RdfTerm {
    RdfTerm::Named(x.to_string())
}

#[test]
fn finish_without_quads_fails() {
    let mut ser = TrigSerializer::new();
    assert!(ser.config.is_some());
    assert_eq!(ser.finish(), Err(()));
    // the configuration is still there: a quad can still be written
    assert!(ser.config.is_some());
}

#[test]
fn one_quad_in_default_graph() {
    let mut ser = TrigSerializer::new();
    ser.serialize_quad(quad("http://ex/s", iri("http://ex/o"), RdfGraph::Default));
    assert!(ser.config.is_none());
    let out = ser.finish().unwrap();
    assert_eq!(out, b"<http://ex/s> <http://ex/p> <http://ex/o> .\n\0".to_vec());
    assert_eq!(ser.finish(), Err(()));
}

#[test]
fn quads_in_named_graph() {
    let mut ser = TrigSerializer::new();
    let g = || RdfGraph::Named("http://ex/g".to_string());
    ser.serialize_quad(quad("http://ex/s", iri("http://ex/o1"), g()));
    ser.serialize_quad(quad("http://ex/s", iri("http://ex/o2"), g()));
    let out = ser.finish().unwrap();
    assert_eq!(
        out,
        b"<http://ex/g> {\n\t<http://ex/s> <http://ex/p> <http://ex/o1> , <http://ex/o2> .\n}\n\0".to_vec()
    );
}

#[test]
fn subjects_graphs_and_literals() {
    let mut ser = TrigSerializer::new();
    ser.serialize_quad(quad("http://ex/a", iri("http://ex/o"), RdfGraph::Default));
    ser.serialize_quad(RdfQuad {
        subject: RdfNode::Named("http://ex/a".to_string()),
        predicate: "http://ex/q".to_string(),
        object: RdfTerm::Literal {
            value: "chat".to_string(),
            language: Some("fr".to_string()),
            datatype: "http://www.w3.org/1999/02/22-rdf-syntax-ns#langString".to_string(),
        },
        graph: RdfGraph::Default,
    });
    ser.serialize_quad(quad(
        "http://ex/b",
        RdfTerm::Literal {
            value: "42".to_string(),
            language: None,
            datatype: "http://www.w3.org/2001/XMLSchema#integer".to_string(),
        },
        RdfGraph::Default,
    ));
    ser.serialize_quad(RdfQuad {
        subject: RdfNode::Blank("x1".to_string()),
        predicate: "http://ex/p".to_string(),
        object: RdfTerm::Literal {
            value: "plain".to_string(),
            language: None,
            datatype: "http://www.w3.org/2001/XMLSchema#string".to_string(),
        },
        graph: RdfGraph::Blank("g1".to_string()),
    });
    let out = String::from_utf8(ser.finish().unwrap()).unwrap();
    assert_eq!(
        out,
        "<http://ex/a> <http://ex/p> <http://ex/o> ;\n\t<http://ex/q> \"chat\"@fr .\n<http://ex/b> <http://ex/p> 42 .\n_:g1 {\n\t_:x1 <http://ex/p> \"plain\" .\n}\n\0"
    );
}

#[test]
fn quads_after_finish_are_dropped() {
    let mut ser = TrigSerializer::new();
    ser.serialize_quad(quad("http://ex/s", iri("http://ex/o"), RdfGraph::Default));
    assert!(ser.finish().is_ok());
    ser.serialize_quad(quad("http://ex/s", iri("http://ex/o"), RdfGraph::Default));
    assert_eq!(ser.finish(), Err(()));
}

#[test]
fn blank_node_per_label() {
    let mut ser = TrigSerializer::new();
    let a1 = ser.get_bnode("a").unwrap();
    let b = ser.get_bnode("b").unwrap();
    ser.serialize_quad(quad("http://ex/s", iri("http://ex/o"), RdfGraph::Default));
    let a2 = ser.get_bnode("a").unwrap();
    assert_eq!(a1, a2);
    assert_ne!(a1, b);
}

#[test]
fn making_a_writer_twice_is_making_it_once() {
    let mut ser = TrigSerializer::new();
    ser.in_write_state();
    assert!(ser.config.is_none());
    ser.in_write_state();
    assert!(ser.config.is_none());
    assert_eq!(ser.finish(), Ok(vec![0u8]));
}

#[test]
fn blank_node_lookup_keeps_the_writer() {
    let mut ser = TrigSerializer::new();
    ser.serialize_quad(quad("http://ex/s", iri("http://ex/o1"), RdfGraph::Default));
    let _ = ser.get_bnode("a");
    ser.serialize_quad(quad("http://ex/s", iri("http://ex/o2"), RdfGraph::Default));
    assert_eq!(
        ser.finish().unwrap(),
        b"<http://ex/s> <http://ex/p> <http://ex/o1> , <http://ex/o2> .\n\0".to_vec()
    );
}
