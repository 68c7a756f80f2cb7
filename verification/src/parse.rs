//! Parsing a Turtle or TriG document and handing each quad, in order, to a
//! triple handler.

use vstd::prelude::*;

use crate::callhook::{call_hook, hook_args, hook_outcome, CallHookError, HookArgs};
use crate::rdf::{quads_in_default_graph, quads_tag_lang_string, RdfQuad};
use crate::trigparser::{trig_may_yield, trig_quads, TrigConfig, TrigParseSettings};
use crate::ttlparser::{turtle_may_yield, turtle_quads, TTLConfig, TurtleSettings};

verus! {

/// Why parsing and delivering stopped.
#[derive(Debug, Clone)]
pub enum DeliveryError {
    /// The configuration rejected the parser.
    Configuration,
    /// The document has a syntax error; the parser's message.
    Syntax(String),
    /// A quad could not be handed to the handler.
    Hook(CallHookError),
}

/// The handler may accept `q`: its arguments can be built and the handler
/// may return 0 for them.
pub open spec fn accepted<F: Fn(&HookArgs) -> i8>(hook: F, q: RdfQuad) -> bool {
    hook_outcome(hook, q, Ok(()))
}

/// Every item before position `k` is a quad that the handler accepted.
pub open spec fn accepted_before<F: Fn(&HookArgs) -> i8>(
    hook: F,
    items: Seq<Result<RdfQuad, String>>,
    k: int,
) -> bool {
    forall|j: int| 0 <= j < k ==> #[trigger] items[j] is Ok && accepted(hook, items[j]->Ok_0)
}

/// `res` is what delivering `items` (a quad, or a syntax error's message)
/// one by one may give: success when every item is a quad that the handler
/// accepted; the first syntax error's message; or the error of the first
/// quad that could not be handed over or that the handler refused.
pub open spec fn delivery_outcome<F: Fn(&HookArgs) -> i8>(
    hook: F,
    items: Seq<Result<RdfQuad, String>>,
    res: Result<(), DeliveryError>,
) -> bool {
    match res {
        Ok(()) => accepted_before(hook, items, items.len() as int),
        Err(DeliveryError::Syntax(m)) => exists|k: int|
            0 <= k < items.len() && #[trigger] items[k] == Err::<RdfQuad, String>(m)
                && accepted_before(hook, items, k),
        Err(DeliveryError::Hook(e)) => exists|k: int|
            0 <= k < items.len() && #[trigger] items[k] is Ok && hook_outcome(
                hook,
                items[k]->Ok_0,
                Err(e),
            ) && accepted_before(hook, items, k),
        Err(DeliveryError::Configuration) => false,
    }
}

/// The status number of an outcome: 0 for success, -1 when the
/// configuration rejected the parser or a quad was not accepted, -3 for a
/// syntax error.
pub open spec fn status_number(res: Result<(), DeliveryError>) -> i64 {
    match res {
        Ok(()) => 0i64,
        Err(DeliveryError::Syntax(_)) => -3i64,
        Err(_) => -1i64,
    }
}

/// The status number of an outcome (see `status_number`).
pub fn status_code(res: &Result<(), DeliveryError>) -> (code: i64)
    ensures
        code == status_number(*res),
{
    match res {
        Ok(()) => 0,
        Err(DeliveryError::Syntax(_)) => -3,
        Err(_) => -1,
    }
}

/// Hands the quads of `items` to `hook` in order, and stops at the first
/// syntax error or the first quad that could not be handed over.
pub fn deliver_quads<F: Fn(&HookArgs) -> i8>(items: &Vec<Result<RdfQuad, String>>, hook: &F) -> (res:
    Result<(), DeliveryError>)
    requires
        forall|a: &HookArgs| hook.requires((a,)),
    ensures
        delivery_outcome(*hook, items@, res),
{
    let mut i: usize = 0;
    while i < items.len()
        invariant
            i <= items@.len(),
            forall|a: &HookArgs| hook.requires((a,)),
            accepted_before(*hook, items@, i as int),
        decreases items@.len() - i,
    {
        match &items[i] {
            Err(m) => {
                let m = m.clone();
                assert(items@[i as int] == Err::<RdfQuad, String>(m));
                return Err(DeliveryError::Syntax(m));
            },
            Ok(q) => {
                match call_hook(q, hook) {
                    Ok(()) => {},
                    Err(e) => {
                        assert(hook_outcome(*hook, items@[i as int]->Ok_0, Err(e)));
                        assert(items@[i as int] is Ok);
                        return Err(DeliveryError::Hook(e));
                    },
                }
            },
        }
        i = i + 1;
    }
    Ok(())
}

/// Parses the Turtle document `input` and hands each triple, as a quad in
/// the default graph, to `hook`, stopping at the first syntax error or the
/// first quad not accepted. The outcome is that of delivering a sequence of
/// items that a Turtle parser with the default settings may yield for
/// `input`; the configuration, which
/// leaves the parser as it is, makes no difference to it.
pub fn parse_ttl<F: Fn(&HookArgs) -> i8>(input: &[u8], hook: &F, extra_config: Option<&TTLConfig>) -> (res:
    Result<(), DeliveryError>)
    requires
        forall|a: &HookArgs| hook.requires((a,)),
    ensures
        exists|items: Seq<Result<RdfQuad, String>>| #[trigger]
            turtle_may_yield(input@, items) && quads_in_default_graph(items)
                && quads_tag_lang_string(items) && delivery_outcome(*hook, items, res),
{
    let mut settings = TurtleSettings {};
    if let Some(config) = extra_config {
        match config.decorate_parser(settings) {
            Ok(s) => {
                settings = s;
            },
            Err(_) => {
                return Err(DeliveryError::Configuration);
            },
        }
    }
    let items = turtle_quads(settings, input);
    let res = deliver_quads(&items, hook);
    assert(turtle_may_yield(input@, items@) && quads_in_default_graph(items@)
        && quads_tag_lang_string(items@) && delivery_outcome(*hook, items@, res));
    res
}

/// Parses the TriG document `input` and hands each quad to `hook`, stopping
/// at the first syntax error or the first quad not accepted. The outcome is
/// that of delivering a sequence of items that a TriG parser with the
/// default settings may yield for
/// `input`; the configuration, which leaves the parser as it is, makes no
/// difference to it.
pub fn parse_trig<F: Fn(&HookArgs) -> i8>(input: &[u8], hook: &F, extra_config: Option<&TrigConfig>) -> (res:
    Result<(), DeliveryError>)
    requires
        forall|a: &HookArgs| hook.requires((a,)),
    ensures
        exists|items: Seq<Result<RdfQuad, String>>| #[trigger]
            trig_may_yield(input@, items) && quads_tag_lang_string(items) && delivery_outcome(
                *hook,
                items,
                res,
            ),
{
    let mut settings = TrigParseSettings {};
    if let Some(config) = extra_config {
        match config.decorate_parser(settings) {
            Ok(s) => {
                settings = s;
            },
            Err(_) => {
                return Err(DeliveryError::Configuration);
            },
        }
    }
    let items = trig_quads(settings, input);
    let res = deliver_quads(&items, hook);
    assert(trig_may_yield(input@, items@) && quads_tag_lang_string(items@) && delivery_outcome(
        *hook,
        items@,
        res,
    ));
    res
}

} // verus!

verus! {

/// Delivering quads that can all become C strings to a handler that only
/// ever returns 0 succeeds.
pub proof fn delivery_of_accepted_quads_succeeds<F: Fn(&HookArgs) -> i8>(
    hook: F,
    items: Seq<Result<RdfQuad, String>>,
    res: Result<(), DeliveryError>,
)
    requires
        delivery_outcome(hook, items, res),
        forall|i: int| 0 <= i < items.len() ==> #[trigger] items[i] is Ok && hook_args(items[i]->Ok_0) is Ok,
        forall|a: &HookArgs, r: i8| #[trigger] hook.ensures((a,), r) ==> r == 0,
    ensures
        res is Ok,
{
    match res {
        Ok(()) => {},
        Err(DeliveryError::Syntax(m)) => {
            let k = choose|k: int|
                0 <= k < items.len() && #[trigger] items[k] == Err::<RdfQuad, String>(m)
                    && accepted_before(hook, items, k);
            assert(items[k] is Ok);
        },
        Err(DeliveryError::Hook(e)) => {
            let k = choose|k: int|
                0 <= k < items.len() && #[trigger] items[k] is Ok && hook_outcome(
                    hook,
                    items[k]->Ok_0,
                    Err(e),
                ) && accepted_before(hook, items, k);
            assert(hook_args(items[k]->Ok_0) is Ok);
        },
        Err(DeliveryError::Configuration) => {},
    }
}

/// With a handler that only ever returns 0, a syntax error after quads that
/// can all become C strings ends the delivery with that error's message.
pub proof fn delivery_stops_at_syntax_error<F: Fn(&HookArgs) -> i8>(
    hook: F,
    items: Seq<Result<RdfQuad, String>>,
    k: int,
    res: Result<(), DeliveryError>,
)
    requires
        delivery_outcome(hook, items, res),
        0 <= k < items.len(),
        items[k] is Err,
        forall|i: int| 0 <= i < k ==> #[trigger] items[i] is Ok && hook_args(items[i]->Ok_0) is Ok,
        forall|a: &HookArgs, r: i8| #[trigger] hook.ensures((a,), r) ==> r == 0,
    ensures
        res == Err::<(), DeliveryError>(DeliveryError::Syntax(items[k]->Err_0)),
{
    match res {
        Ok(()) => {
            assert(items[k] is Ok);
        },
        Err(DeliveryError::Syntax(m)) => {
            let j = choose|j: int|
                0 <= j < items.len() && #[trigger] items[j] == Err::<RdfQuad, String>(m)
                    && accepted_before(hook, items, j);
            if j > k {
                assert(items[k] is Ok);
            }
            if j < k {
                assert(items[j] is Ok);
            }
        },
        Err(DeliveryError::Hook(e)) => {
            let j = choose|j: int|
                0 <= j < items.len() && #[trigger] items[j] is Ok && hook_outcome(
                    hook,
                    items[j]->Ok_0,
                    Err(e),
                ) && accepted_before(hook, items, j);
            if j > k {
                assert(items[k] is Ok);
            }
            assert(j < k);
            assert(hook_args(items[j]->Ok_0) is Ok);
        },
        Err(DeliveryError::Configuration) => {},
    }
}

} // verus!

verus! {

/// The status number is 0 exactly for success; a syntax error gives -3;
/// a failed hand-over and a rejected configuration give -1.
pub proof fn status_numbers(res: Result<(), DeliveryError>)
    ensures
        status_number(res) == 0 <==> res is Ok,
        res matches Err(DeliveryError::Syntax(_)) ==> status_number(res) == -3,
        res matches Err(DeliveryError::Hook(_)) ==> status_number(res) == -1,
        res matches Err(DeliveryError::Configuration) ==> status_number(res) == -1,
{
}

} // verus!
