//! Turning a quad into the arguments of a C-style triple handler, and
//! calling that handler.

use vstd::prelude::*;
use vstd::string::*;
use vstd::utf8::encode_utf8;

use crate::rdf::{RdfGraph, RdfNode, RdfQuad, RdfTerm};

verus! {

/// The kind of a term, as the handler sees it.
#[derive(Debug, Clone, Copy, PartialEq, Eq, Structural)]
pub enum TermType {
    Uri,
    BNode,
    TypedLiteral,
    LangLiteral,
}

impl TermType {
    pub open spec fn spec_code(&self) -> u8 {
        match self {
            TermType::Uri => 0,
            TermType::BNode => 1,
            TermType::TypedLiteral => 2,
            TermType::LangLiteral => 3,
        }
    }

    /// The number by which the handler receives this kind.
    #[verifier::when_used_as_spec(spec_code)]
    pub fn code(&self) -> (c: u8)
        ensures
            c == self.spec_code(),
    {
        match self {
            TermType::Uri => 0,
            TermType::BNode => 1,
            TermType::TypedLiteral => 2,
            TermType::LangLiteral => 3,
        }
    }
}

/// Why a quad could not be handed to the handler.
#[derive(Debug, Clone, Copy, PartialEq, Eq, Structural)]
pub enum CallHookError {
    /// The handler returned this nonzero value.
    DuringCall(i8),
    TransformSubjVal,
    TransformPredVal,
    TransformObjVal,
    TransformObjSuffix,
    TransformGraphId,
}

/// The ASCII digit for `d`.
pub open spec fn digit_char(d: nat) -> char {
    (48 + d) as char
}

/// The decimal digits of `n`, most significant first, without leading zeros.
pub open spec fn decimal_digits(n: nat) -> Seq<char>
    decreases n,
{
    if n < 10 {
        seq![digit_char(n)]
    } else {
        decimal_digits(n / 10) + seq![digit_char(n % 10)]
    }
}

/// The decimal notation of `i`, with a leading `-` when it is negative.
pub open spec fn decimal_text(i: int) -> Seq<char> {
    if i < 0 {
        seq!['-'] + decimal_digits((-i) as nat)
    } else {
        decimal_digits(i as nat)
    }
}

/// The text that describes an error.
pub open spec fn error_text(e: CallHookError) -> Seq<char> {
    match e {
        CallHookError::DuringCall(x) => "call_triplehandler failed with "@ + decimal_text(x as int),
        CallHookError::TransformSubjVal => "failed subject"@,
        CallHookError::TransformPredVal => "failed predicate"@,
        CallHookError::TransformObjVal => "failed object value"@,
        CallHookError::TransformObjSuffix => "failed object suffix"@,
        CallHookError::TransformGraphId => "failed graph id"@,
    }
}

fn digit_str(d: u8) -> (s: &'static str)
    requires
        d < 10,
    ensures
        s@ == seq![digit_char(d as nat)],
{
    proof {
        reveal_strlit("0");
        reveal_strlit("1");
        reveal_strlit("2");
        reveal_strlit("3");
        reveal_strlit("4");
        reveal_strlit("5");
        reveal_strlit("6");
        reveal_strlit("7");
        reveal_strlit("8");
        reveal_strlit("9");
    }
    match d {
        0 => "0",
        1 => "1",
        2 => "2",
        3 => "3",
        4 => "4",
        5 => "5",
        6 => "6",
        7 => "7",
        8 => "8",
        _ => "9",
    }
}

/// Appends the decimal notation of `x` to `out`.
fn append_decimal(out: &mut String, x: i8)
    ensures
        final(out)@ == old(out)@ + decimal_text(x as int),
{
    let m: u8 = if x < 0 {
        out.append("-");
        proof {
            reveal_strlit("-");
        }
        if x == -128i8 {
            128u8
        } else {
            (-x) as u8
        }
    } else {
        x as u8
    };
    let ghost before = out@;
    assert(m as int == if x < 0 { -(x as int) } else { x as int });
    if m >= 100 {
        out.append(digit_str(m / 100));
    }
    if m >= 10 {
        out.append(digit_str((m / 10) % 10));
    }
    out.append(digit_str(m % 10));
    proof {
        reveal_with_fuel(decimal_digits, 3);
        if m >= 100 {
            assert(decimal_digits((m / 10) as nat) =~= decimal_digits((m / 100) as nat) + seq![
                digit_char(((m / 10) % 10) as nat),
            ]);
        }
        assert(out@ =~= before + decimal_digits(m as nat));
    }
}

impl CallHookError {
    /// A line of text that says what went wrong.
    pub fn message(&self) -> (s: String)
        ensures
            s@ == error_text(*self),
    {
        match self {
            CallHookError::DuringCall(x) => {
                let mut s = String::from_str("call_triplehandler failed with ");
                append_decimal(&mut s, *x);
                s
            },
            CallHookError::TransformSubjVal => String::from_str("failed subject"),
            CallHookError::TransformPredVal => String::from_str("failed predicate"),
            CallHookError::TransformObjVal => String::from_str("failed object value"),
            CallHookError::TransformObjSuffix => String::from_str("failed object suffix"),
            CallHookError::TransformGraphId => String::from_str("failed graph id"),
        }
    }
}

/// What the handler receives for one quad: each string is the content of a
/// C string (so it holds no NUL byte), each `u8` a term-type code.
#[derive(Debug, Clone)]
pub struct HookArgs {
    pub subject: String,
    pub subject_type: u8,
    pub predicate: String,
    pub object: String,
    /// The language tag or the datatype of a literal; absent otherwise.
    pub object_suffix: Option<String>,
    pub object_type: u8,
    /// The graph name; absent for the default graph.
    pub graph_id: Option<String>,
    pub graph_type: u8,
}

/// The IRI of xsd:string, the datatype of simple literals.
pub open spec fn xsd_string_iri() -> Seq<char> {
    "http://www.w3.org/2001/XMLSchema#string"@
}

/// A string cannot become a C string when its UTF-8 encoding holds a 0 byte.
pub open spec fn has_nul(s: String) -> bool {
    encode_utf8(s@).contains(0u8)
}

pub open spec fn option_has_nul(s: Option<String>) -> bool {
    s matches Some(x) && has_nul(x)
}

/// Kind and text of a subject.
pub open spec fn subject_parts(n: RdfNode) -> (TermType, String) {
    match n {
        RdfNode::Named(x) => (TermType::Uri, x),
        RdfNode::Blank(x) => (TermType::BNode, x),
    }
}

/// Kind, text and suffix of an object: a language-tagged literal carries its
/// tag, a literal of another datatype than xsd:string carries that datatype.
pub open spec fn object_parts(t: RdfTerm) -> (TermType, String, Option<String>) {
    match t {
        RdfTerm::Named(x) => (TermType::Uri, x, None),
        RdfTerm::Blank(x) => (TermType::BNode, x, None),
        RdfTerm::Literal { value, language, datatype } => match language {
            Some(l) => (TermType::LangLiteral, value, Some(l)),
            None => if datatype@ == xsd_string_iri() {
                (TermType::TypedLiteral, value, None)
            } else {
                (TermType::TypedLiteral, value, Some(datatype))
            },
        },
    }
}

/// Kind and name of a graph; the default graph is a URI kind without a name.
pub open spec fn graph_parts(g: RdfGraph) -> (TermType, Option<String>) {
    match g {
        RdfGraph::Default => (TermType::Uri, None),
        RdfGraph::Named(x) => (TermType::Uri, Some(x)),
        RdfGraph::Blank(x) => (TermType::BNode, Some(x)),
    }
}

/// The handler's arguments for a quad, or the first part (in the order
/// subject, predicate, object, object suffix, graph) that holds a NUL byte.
pub open spec fn hook_args(q: RdfQuad) -> Result<HookArgs, CallHookError> {
    let (st, sv) = subject_parts(q.subject);
    let (ot, ov, os) = object_parts(q.object);
    let (gt, gv) = graph_parts(q.graph);
    if has_nul(sv) {
        Err(CallHookError::TransformSubjVal)
    } else if has_nul(q.predicate) {
        Err(CallHookError::TransformPredVal)
    } else if has_nul(ov) {
        Err(CallHookError::TransformObjVal)
    } else if option_has_nul(os) {
        Err(CallHookError::TransformObjSuffix)
    } else if option_has_nul(gv) {
        Err(CallHookError::TransformGraphId)
    } else {
        Ok(
            HookArgs {
                subject: sv,
                subject_type: st.spec_code(),
                predicate: q.predicate,
                object: ov,
                object_suffix: os,
                object_type: ot.spec_code(),
                graph_id: gv,
                graph_type: gt.spec_code(),
            },
        )
    }
}

/// What a call of the handler that returned `r` makes of the quad.
pub open spec fn hook_status(r: i8) -> Result<(), CallHookError> {
    if r == 0 {
        Ok(())
    } else {
        Err(CallHookError::DuringCall(r))
    }
}

/// `res` is a possible outcome of handing `q` to `hook`: the conversion error,
/// or the status of a value that the handler may return for its arguments.
pub open spec fn hook_outcome<F: Fn(&HookArgs) -> i8>(
    hook: F,
    q: RdfQuad,
    res: Result<(), CallHookError>,
) -> bool {
    match hook_args(q) {
        Err(e) => res == Err::<(), CallHookError>(e),
        Ok(args) => exists|r: i8| #[trigger] hook.ensures((&args,), r) && res == hook_status(r),
    }
}

/// Whether `s` holds a NUL byte in its UTF-8 encoding.
pub fn contains_nul(s: &String) -> (b: bool)
    ensures
        b == has_nul(*s),
{
    let text = s.as_str();
    let bytes = text.as_bytes();
    let mut i: usize = 0;
    while i < bytes.len()
        invariant
            i <= bytes@.len(),
            bytes@ == encode_utf8(s@),
            forall|j: int| 0 <= j < i ==> bytes@[j] != 0u8,
        decreases bytes@.len() - i,
    {
        if bytes[i] == 0u8 {
            return true;
        }
        i = i + 1;
    }
    false
}

fn option_contains_nul(s: &Option<String>) -> (b: bool)
    ensures
        b == option_has_nul(*s),
{
    match s {
        Some(x) => contains_nul(x),
        None => false,
    }
}

fn subject_of(n: &RdfNode) -> (res: (TermType, String))
    ensures
        res == subject_parts(*n),
{
    match n {
        RdfNode::Named(x) => (TermType::Uri, x.clone()),
        RdfNode::Blank(x) => (TermType::BNode, x.clone()),
    }
}

fn object_of(t: &RdfTerm) -> (res: (TermType, String, Option<String>))
    ensures
        res == object_parts(*t),
{
    match t {
        RdfTerm::Named(x) => (TermType::Uri, x.clone(), None),
        RdfTerm::Blank(x) => (TermType::BNode, x.clone(), None),
        RdfTerm::Literal { value, language, datatype } => match language {
            Some(l) => (TermType::LangLiteral, value.clone(), Some(l.clone())),
            None => {
                let xsd = String::from_str("http://www.w3.org/2001/XMLSchema#string");
                if *datatype == xsd {
                    (TermType::TypedLiteral, value.clone(), None)
                } else {
                    (TermType::TypedLiteral, value.clone(), Some(datatype.clone()))
                }
            },
        },
    }
}

fn graph_of(g: &RdfGraph) -> (res: (TermType, Option<String>))
    ensures
        res == graph_parts(*g),
{
    match g {
        RdfGraph::Default => (TermType::Uri, None),
        RdfGraph::Named(x) => (TermType::Uri, Some(x.clone())),
        RdfGraph::Blank(x) => (TermType::BNode, Some(x.clone())),
    }
}

/// Builds the handler's arguments for `quad`, checking in turn that the
/// subject, the predicate, the object, the object suffix and the graph name
/// can each become a C string.
pub fn prepare_hook_args(quad: &RdfQuad) -> (res: Result<HookArgs, CallHookError>)
    ensures
        res == hook_args(*quad),
{
    let (subj_type, subj_val) = subject_of(&quad.subject);
    let (obj_type, obj_val, obj_suffix) = object_of(&quad.object);
    let (graph_type, graph_val) = graph_of(&quad.graph);
    if contains_nul(&subj_val) {
        return Err(CallHookError::TransformSubjVal);
    }
    if contains_nul(&quad.predicate) {
        return Err(CallHookError::TransformPredVal);
    }
    if contains_nul(&obj_val) {
        return Err(CallHookError::TransformObjVal);
    }
    if option_contains_nul(&obj_suffix) {
        return Err(CallHookError::TransformObjSuffix);
    }
    if option_contains_nul(&graph_val) {
        return Err(CallHookError::TransformGraphId);
    }
    Ok(
        HookArgs {
            subject: subj_val,
            subject_type: subj_type.code(),
            predicate: quad.predicate.clone(),
            object: obj_val,
            object_suffix: obj_suffix,
            object_type: obj_type.code(),
            graph_id: graph_val,
            graph_type: graph_type.code(),
        },
    )
}

/// What the handler's return value means: 0 is success, anything else is
/// reported back as `DuringCall`.
pub fn status_of_return(r: i8) -> (res: Result<(), CallHookError>)
    ensures
        res == hook_status(r),
{
    if r != 0 {
        return Err(CallHookError::DuringCall(r));
    }
    Ok(())
}

/// Hands `quad` to `hook`: the handler is called only when every part of the
/// quad can become a C string, and its nonzero return values are errors.
pub fn call_hook<F: Fn(&HookArgs) -> i8>(quad: &RdfQuad, hook: &F) -> (res: Result<
    (),
    CallHookError,
>)
    requires
        forall|a: &HookArgs| hook.requires((a,)),
    ensures
        hook_outcome(*hook, *quad, res),
{
    let args = match prepare_hook_args(quad) {
        Ok(a) => a,
        Err(e) => {
            return Err(e);
        },
    };
    let r = hook(&args);
    let res = status_of_return(r);
    assert(hook.ensures((&args,), r));
    res
}

} // verus!

verus! {

/// A quad whose parts can all become C strings, handed to a handler that
/// only ever returns 0, is delivered without error.
pub proof fn handler_returning_zero_accepts<F: Fn(&HookArgs) -> i8>(
    hook: F,
    q: RdfQuad,
    res: Result<(), CallHookError>,
)
    requires
        hook_outcome(hook, q, res),
        hook_args(q) is Ok,
        forall|a: &HookArgs, r: i8| #[trigger] hook.ensures((a,), r) ==> r == 0,
    ensures
        res == Ok::<(), CallHookError>(()),
{
}

/// A quad of the default graph reaches the handler without a graph name and
/// with the URI code for its graph.
pub proof fn default_graph_arguments(q: RdfQuad)
    requires
        q.graph is Default,
        hook_args(q) is Ok,
    ensures
        hook_args(q)->Ok_0.graph_id is None,
        hook_args(q)->Ok_0.graph_type == 0,
{
}

/// A literal reaches the handler with the code 3 and its language tag when it
/// is language-tagged; otherwise with the code 2, and with its datatype as
/// suffix unless that is xsd:string.
pub proof fn literal_arguments(q: RdfQuad)
    requires
        q.object is Literal,
        hook_args(q) is Ok,
    ensures
        ({
            let args = hook_args(q)->Ok_0;
            match q.object {
                RdfTerm::Literal { value, language, datatype } => {
                    &&& args.object == value
                    &&& language is Some ==> args.object_type == 3 && args.object_suffix == language
                    &&& language is None && datatype@ == xsd_string_iri() ==> args.object_type == 2
                        && args.object_suffix is None
                    &&& language is None && datatype@ != xsd_string_iri() ==> args.object_type == 2
                        && args.object_suffix == Some(datatype)
                },
                _ => true,
            }
        }),
{
}

} // verus!

verus! {

/// What the handler receives for each part of a quad whose arguments
/// build: the subject's text with code 0 for an IRI and 1 for a blank node;
/// the predicate's text; an IRI or blank-node object's text with code 0 or 1
/// and no suffix, whatever the text; the graph's name with code 0 for a
/// named graph and 1 for a blank-node graph, and no name with code 0 for the
/// default graph.
pub proof fn arguments_of_quad(q: RdfQuad)
    requires
        hook_args(q) is Ok,
    ensures
        ({
            let args = hook_args(q)->Ok_0;
            &&& args.predicate == q.predicate
            &&& q.subject matches RdfNode::Named(x) ==> args.subject == x && args.subject_type == 0
            &&& q.subject matches RdfNode::Blank(x) ==> args.subject == x && args.subject_type == 1
            &&& q.object matches RdfTerm::Named(x) ==> args.object == x && args.object_type == 0
                && args.object_suffix is None
            &&& q.object matches RdfTerm::Blank(x) ==> args.object == x && args.object_type == 1
                && args.object_suffix is None
            &&& q.graph matches RdfGraph::Named(x) ==> args.graph_id == Some(x) && args.graph_type == 0
            &&& q.graph matches RdfGraph::Blank(x) ==> args.graph_id == Some(x) && args.graph_type == 1
            &&& q.graph is Default ==> args.graph_id is None && args.graph_type == 0
        }),
{
}

/// Term-type codes are distinct: the handler can tell every kind apart.
pub proof fn term_type_codes_are_distinct(a: TermType, b: TermType)
    ensures
        a.spec_code() == b.spec_code() <==> a == b,
        a.spec_code() <= 3,
{
}

} // verus!
