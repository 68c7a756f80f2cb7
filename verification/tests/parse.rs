use rdf_callback::callhook::HookArgs;
use rdf_callback::parse::{deliver_quads, parse_trig, parse_ttl, status_code, DeliveryError};
use rdf_callback::rdf::{RdfGraph, RdfNode, RdfQuad, RdfTerm};
use rdf_callback::trigparser::{TrigConfig, TrigParseSettings};
use rdf_callback::ttlparser::{TTLConfig, TurtleSettings};
use std::cell::RefCell;

type Seen = (String, u8, String, String, Option<String>, u8, Option<String>, u8);

fn record(seen: &RefCell<Vec<Seen>>, a: &HookArgs) {
    seen.borrow_mut().push((
        a.subject.clone(),
        a.subject_type,
        a.predicate.clone(),
        a.object.clone(),
        a.object_suffix.clone(),
        a.object_type,
        a.graph_id.clone(),
        a.graph_type,
    ));
}

#[test]
fn turtle_triples_reach_the_handler() {
    let doc = b"@prefix ex: <http://ex/> .\nex:s ex:p ex:o , \"chat\"@fr , \"42\"^^<http://www.w3.org/2001/XMLSchema#integer> , \"plain\" .";
    let seen = RefCell::new(Vec::new());
    let hook = |a: &HookArgs| -> i8 {
        record(&seen, a);
        0
    };
    assert_eq!(status_code(&parse_ttl(doc, &hook, None)), 0);
    let seen = seen.into_inner();
    assert_eq!(seen.len(), 4);
    let base = |o: &str, suffix: Option<&str>, ot: u8| -> Seen {
        (
            "http://ex/s".to_string(),
            0,
            "http://ex/p".to_string(),
            o.to_string(),
            suffix.map(str::to_string),
            ot,
            None,
            0,
        )
    };
    assert_eq!(seen[0], base("http://ex/o", None, 0));
    assert_eq!(seen[1], base("chat", Some("fr"), 3));
    assert_eq!(seen[2], base("42", Some("http://www.w3.org/2001/XMLSchema#integer"), 2));
    assert_eq!(seen[3], base("plain", None, 2));
}

#[test]
fn turtle_with_config() {
    let seen = RefCell::new(Vec::new());
    let hook = |a: &HookArgs| -> i8 {
        record(&seen, a);
        0
    };
    let config = TTLConfig {};
    assert_eq!(status_code(&parse_ttl(b"_:a <http://ex/p> _:b .", &hook, Some(&config))), 0);
    let seen = seen.into_inner();
    assert_eq!(seen.len(), 1);
    assert_eq!(seen[0].1, 1);
    assert_eq!(seen[0].5, 1);
}

#[test]
fn turtle_syntax_error_after_a_triple() {
    let seen = RefCell::new(Vec::new());
    let hook = |a: &HookArgs| -> i8 {
        record(&seen, a);
        0
    };
    assert_eq!(status_code(&parse_ttl(b"<http://ex/s> <http://ex/p> <http://ex/o> .\nthis is not turtle", &hook, None)), -3);
    assert_eq!(seen.into_inner().len(), 1);
}

#[test]
fn turtle_handler_failure_stops() {
    let calls = RefCell::new(0);
    let hook = |_: &HookArgs| -> i8 {
        *calls.borrow_mut() += 1;
        9
    };
    let doc = b"<http://ex/s> <http://ex/p> <http://ex/o1> , <http://ex/o2> .";
    assert_eq!(status_code(&parse_ttl(doc, &hook, None)), -1);
    assert_eq!(*calls.borrow(), 1);
}

#[test]
fn empty_documents() {
    let hook = |_: &HookArgs| -> i8 { 1 };
    assert_eq!(status_code(&parse_ttl(b"", &hook, None)), 0);
    assert_eq!(status_code(&parse_trig(b"", &hook, None)), 0);
}

#[test]
fn trig_quads_reach_the_handler() {
    let doc = b"<http://ex/g> { <http://ex/s> <http://ex/p> <http://ex/o> . }\n<http://ex/s2> <http://ex/p> _:x .";
    let seen = RefCell::new(Vec::new());
    let hook = |a: &HookArgs| -> i8 {
        record(&seen, a);
        0
    };
    let config = TrigConfig {};
    assert_eq!(status_code(&parse_trig(doc, &hook, Some(&config))), 0);
    let seen = seen.into_inner();
    assert_eq!(seen.len(), 2);
    assert_eq!(seen[0].0, "http://ex/s");
    assert_eq!(seen[0].6.as_deref(), Some("http://ex/g"));
    assert_eq!(seen[0].7, 0);
    assert_eq!(seen[1].0, "http://ex/s2");
    assert_eq!(seen[1].5, 1);
    assert_eq!(seen[1].6, None);
}

#[test]
fn trig_syntax_error() {
    let hook = |_: &HookArgs| -> i8 { 0 };
    assert_eq!(status_code(&parse_trig(b"<http://ex/g> { <http://ex/s> ", &hook, None)), -3);
}

fn code<F: Fn(&HookArgs) -> i8>(items: Vec<Result<RdfQuad, String>>, hook: &F) -> i64 {
    status_code(&deliver_quads(&items, hook))
}

fn named(s: &str) -> RdfQuad {
    RdfQuad {
        subject: RdfNode::Named(s.to_string()),
        predicate: "http://ex/p".to_string(),
        object: RdfTerm::Named("http://ex/o".to_string()),
        graph: RdfGraph::Default,
    }
}

#[test]
fn delivery_status_codes() {
    let ok = |_: &HookArgs| -> i8 { 0 };
    let bad = || Err::<RdfQuad, String>("bad".to_string());
    assert_eq!(code(vec![Ok(named("a")), Ok(named("b"))], &ok), 0);
    assert_eq!(code(vec![Ok(named("a")), bad(), Ok(named("b"))], &ok), -3);
    assert_eq!(code(vec![Ok(named("a\0")), bad()], &ok), -1);
    assert_eq!(code(vec![], &ok), 0);
    let refuse = |_: &HookArgs| -> i8 { -2 };
    assert_eq!(code(vec![Ok(named("a")), bad()], &refuse), -1);
    assert_eq!(code(vec![bad(), Ok(named("a"))], &refuse), -3);
}

#[test]
fn delivery_errors_carry_their_cause() {
    let ok = |_: &HookArgs| -> i8 { 0 };
    match deliver_quads(&vec![Ok(named("a")), Err("line 2: oops".to_string())], &ok) {
        Err(DeliveryError::Syntax(m)) => assert_eq!(m, "line 2: oops"),
        other => panic!("unexpected {:?}", other),
    }
    let refuse = |_: &HookArgs| -> i8 { 4 };
    match deliver_quads(&vec![Ok(named("a"))], &refuse) {
        Err(DeliveryError::Hook(e)) => assert_eq!(e, rdf_callback::callhook::CallHookError::DuringCall(4)),
        other => panic!("unexpected {:?}", other),
    }
    match parse_ttl(b"<http://ex/s> <http://ex/p> .", &ok, None) {
        Err(DeliveryError::Syntax(m)) => assert!(!m.is_empty()),
        other => panic!("unexpected {:?}", other),
    }
}

#[test]
fn configuration_keeps_default_settings() {
    assert_eq!(TTLConfig {}.decorate_parser(TurtleSettings {}).ok(), Some(TurtleSettings {}));
    assert_eq!(TrigConfig {}.decorate_parser(TrigParseSettings {}).ok(), Some(TrigParseSettings {}));
    // strict default settings: a relative IRI without a base is an error
    let hook = |_: &HookArgs| -> i8 { 0 };
    assert_eq!(status_code(&parse_ttl(b"<s> <http://ex/p> <http://ex/o> .", &hook, Some(&TTLConfig {}))), -3);
    assert_eq!(status_code(&parse_ttl(b"ex:s <http://ex/p> <http://ex/o> .", &hook, None)), -3);
}
