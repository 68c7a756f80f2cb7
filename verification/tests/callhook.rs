use rdf_callback::callhook::{call_hook, prepare_hook_args, status_of_return, CallHookError, HookArgs, TermType};
use rdf_callback::rdf::{RdfGraph, RdfNode, RdfQuad, RdfTerm};
use std::cell::RefCell;

fn s(x: &str) -> String {
    x.to_string()
}

fn quad(subject: RdfNode, object: RdfTerm, graph: RdfGraph) -> RdfQuad {
    RdfQuad { subject, predicate: s("http://ex/p"), object, graph }
}

#[test]
fn term_type_codes() {
    assert_eq!(TermType::Uri.code(), 0);
    assert_eq!(TermType::BNode.code(), 1);
    assert_eq!(TermType::TypedLiteral.code(), 2);
    assert_eq!(TermType::LangLiteral.code(), 3);
}

#[test]
fn named_subject_and_object_in_default_graph() {
    let q = quad(RdfNode::Named(s("http://ex/s")), RdfTerm::Named(s("http://ex/o")), RdfGraph::Default);
    let a = prepare_hook_args(&q).unwrap();
    assert_eq!(a.subject, "http://ex/s");
    assert_eq!(a.subject_type, 0);
    assert_eq!(a.predicate, "http://ex/p");
    assert_eq!(a.object, "http://ex/o");
    assert_eq!(a.object_suffix, None);
    assert_eq!(a.object_type, 0);
    assert_eq!(a.graph_id, None);
    assert_eq!(a.graph_type, 0);
}

#[test]
fn blank_nodes_and_named_graph() {
    let q = quad(RdfNode::Blank(s("b0")), RdfTerm::Blank(s("b1")), RdfGraph::Named(s("http://ex/g")));
    let a = prepare_hook_args(&q).unwrap();
    assert_eq!((a.subject.as_str(), a.subject_type), ("b0", 1));
    assert_eq!((a.object.as_str(), a.object_type), ("b1", 1));
    assert_eq!(a.graph_id.as_deref(), Some("http://ex/g"));
    assert_eq!(a.graph_type, 0);
    let q = quad(RdfNode::Blank(s("b0")), RdfTerm::Blank(s("b1")), RdfGraph::Blank(s("g1")));
    let a = prepare_hook_args(&q).unwrap();
    assert_eq!(a.graph_id.as_deref(), Some("g1"));
    assert_eq!(a.graph_type, 1);
}

#[test]
fn literal_kinds() {
    let simple = RdfTerm::Literal {
        value: s("hello"),
        language: None,
        datatype: s("http://www.w3.org/2001/XMLSchema#string"),
    };
    let a = prepare_hook_args(&quad(RdfNode::Named(s("http://ex/s")), simple, RdfGraph::Default)).unwrap();
    assert_eq!((a.object.as_str(), a.object_type, a.object_suffix), ("hello", 2, None));

    let typed = RdfTerm::Literal {
        value: s("42"),
        language: None,
        datatype: s("http://www.w3.org/2001/XMLSchema#integer"),
    };
    let a = prepare_hook_args(&quad(RdfNode::Named(s("http://ex/s")), typed, RdfGraph::Default)).unwrap();
    assert_eq!(a.object, "42");
    assert_eq!(a.object_type, 2);
    assert_eq!(a.object_suffix.as_deref(), Some("http://www.w3.org/2001/XMLSchema#integer"));

    let tagged = RdfTerm::Literal {
        value: s("chat"),
        language: Some(s("fr")),
        datatype: s("http://www.w3.org/1999/02/22-rdf-syntax-ns#langString"),
    };
    let a = prepare_hook_args(&quad(RdfNode::Named(s("http://ex/s")), tagged, RdfGraph::Default)).unwrap();
    assert_eq!(a.object, "chat");
    assert_eq!(a.object_type, 3);
    assert_eq!(a.object_suffix.as_deref(), Some("fr"));
}

#[test]
fn nul_bytes_are_reported_in_order() {
    let bad = s("a\0b");
    let q = RdfQuad {
        subject: RdfNode::Named(bad.clone()),
        predicate: bad.clone(),
        object: RdfTerm::Named(bad.clone()),
        graph: RdfGraph::Named(bad.clone()),
    };
    assert_eq!(prepare_hook_args(&q).unwrap_err(), CallHookError::TransformSubjVal);
    let q = RdfQuad { subject: RdfNode::Named(s("s")), ..q };
    assert_eq!(prepare_hook_args(&q).unwrap_err(), CallHookError::TransformPredVal);
    let q = RdfQuad { predicate: s("p"), ..q };
    assert_eq!(prepare_hook_args(&q).unwrap_err(), CallHookError::TransformObjVal);
    let q = RdfQuad { object: RdfTerm::Literal { value: s("v"), language: Some(bad.clone()), datatype: s("d") }, ..q };
    assert_eq!(prepare_hook_args(&q).unwrap_err(), CallHookError::TransformObjSuffix);
    let q = RdfQuad { object: RdfTerm::Named(s("o")), ..q };
    assert_eq!(prepare_hook_args(&q).unwrap_err(), CallHookError::TransformGraphId);
    let q = RdfQuad { graph: RdfGraph::Default, ..q };
    assert!(prepare_hook_args(&q).is_ok());
}

#[test]
fn nul_in_simple_literal_datatype_is_ignored() {
    // xsd:string gives no suffix, so only the other parts are checked
    let q = quad(
        RdfNode::Named(s("s")),
        RdfTerm::Literal { value: s("v"), language: None, datatype: s("http://www.w3.org/2001/XMLSchema#string") },
        RdfGraph::Default,
    );
    assert!(prepare_hook_args(&q).is_ok());
    let q = quad(
        RdfNode::Named(s("s")),
        RdfTerm::Literal { value: s("v"), language: None, datatype: s("dt\0") },
        RdfGraph::Default,
    );
    assert_eq!(prepare_hook_args(&q).unwrap_err(), CallHookError::TransformObjSuffix);
}

#[test]
fn status_of_handler_return() {
    assert_eq!(status_of_return(0), Ok(()));
    assert_eq!(status_of_return(7), Err(CallHookError::DuringCall(7)));
    assert_eq!(status_of_return(-1), Err(CallHookError::DuringCall(-1)));
}

#[test]
fn call_hook_passes_arguments_and_maps_return() {
    let seen: RefCell<Vec<(String, u8)>> = RefCell::new(Vec::new());
    let hook = |a: &HookArgs| -> i8 {
        seen.borrow_mut().push((a.subject.clone(), a.subject_type));
        0
    };
    let q = quad(RdfNode::Blank(s("x")), RdfTerm::Named(s("o")), RdfGraph::Default);
    assert_eq!(call_hook(&q, &hook), Ok(()));
    assert_eq!(seen.borrow().as_slice(), &[(s("x"), 1u8)]);

    let failing = |_: &HookArgs| -> i8 { 3 };
    assert_eq!(call_hook(&q, &failing), Err(CallHookError::DuringCall(3)));
}

#[test]
fn call_hook_skips_handler_on_nul() {
    let calls = RefCell::new(0);
    let hook = |_: &HookArgs| -> i8 {
        *calls.borrow_mut() += 1;
        0
    };
    let q = quad(RdfNode::Named(s("s\0")), RdfTerm::Named(s("o")), RdfGraph::Default);
    assert_eq!(call_hook(&q, &hook), Err(CallHookError::TransformSubjVal));
    assert_eq!(*calls.borrow(), 0);
}

#[test]
fn error_messages() {
    assert_eq!(CallHookError::DuringCall(5).message(), "call_triplehandler failed with 5");
    assert_eq!(CallHookError::DuringCall(-12).message(), "call_triplehandler failed with -12");
    assert_eq!(CallHookError::DuringCall(-128).message(), "call_triplehandler failed with -128");
    assert_eq!(CallHookError::DuringCall(127).message(), "call_triplehandler failed with 127");
    assert_eq!(CallHookError::DuringCall(0).message(), "call_triplehandler failed with 0");
    assert_eq!(CallHookError::TransformSubjVal.message(), "failed subject");
    assert_eq!(CallHookError::TransformPredVal.message(), "failed predicate");
    assert_eq!(CallHookError::TransformObjVal.message(), "failed object value");
    assert_eq!(CallHookError::TransformObjSuffix.message(), "failed object suffix");
    assert_eq!(CallHookError::TransformGraphId.message(), "failed graph id");
}
