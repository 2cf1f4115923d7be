//! Invocation requests and responses, and what dispatching one means.
use vstd::prelude::*;
use crate::error::ErrorKind;
use crate::registry::{has_name, named, Handler, ToolDescriptor};
use crate::schema::{validation, Value};
use crate::counter::{apply_op, CounterOp};
use crate::session::{ready, state_after_initialize, SessionState, PROTOCOL_VERSION};
use crate::text::decimal;

verus! {

/// What the greeting tool says.
pub const GREETING: &'static str = "Bonjour!";

/// What the weather tool reports.
pub const WEATHER: &'static str = "Rainy";

/// The correlation token that a caller chose for a request.
#[derive(Debug)]
pub enum RequestId {
    Number(i64),
    Text(String),
}

impl RequestId {
    /// A copy of the token.
    pub fn duplicate(&self) -> (r: RequestId)
        ensures
            r == *self,
    {
        match self {
            RequestId::Number(n) => RequestId::Number(*n),
            RequestId::Text(s) => RequestId::Text(s.clone()),
        }
    }
}

/// A decoded tool call.
#[derive(Debug)]
pub struct Request {
    pub id: RequestId,
    pub tool: String,
    pub arguments: Vec<(String, Value)>,
}

/// The result of a call: its content items, or why it failed.
#[derive(Debug)]
pub enum Outcome {
    Success(Vec<String>),
    Failure(ErrorKind),
}

/// The answer to a request, carrying the request's own token.
#[derive(Debug)]
pub struct Response {
    pub id: RequestId,
    pub outcome: Outcome,
}

/// The texts of a sequence of content items.
pub open spec fn texts(v: Seq<String>) -> Seq<Seq<char>> {
    v.map_values(|s: String| s@)
}

/// The integer held by a validated argument.
pub open spec fn int_arg(o: Option<Value>) -> int {
    match o {
        Some(Value::Int(i)) => i as int,
        _ => 0,
    }
}

/// The text held by a validated argument.
pub open spec fn text_arg(o: Option<Value>) -> Seq<char> {
    match o {
        Some(Value::Text(s)) => s@,
        _ => Seq::empty(),
    }
}

/// What a handler replies, given its validated arguments and the counter's
/// value; `None` where a counter step would leave the range of `i32`.
pub open spec fn reply(h: Handler, t: Seq<Option<Value>>, c: int) -> Option<Seq<Seq<char>>> {
    match h {
        Handler::Increment => if c < i32::MAX {
            Some(seq![decimal(c + 1)])
        } else {
            None
        },
        Handler::Decrement => if c > i32::MIN {
            Some(seq![decimal(c - 1)])
        } else {
            None
        },
        Handler::GetValue => Some(seq![decimal(c)]),
        Handler::SayHello => Some(seq![GREETING@]),
        Handler::TodayWeather => Some(seq![WEATHER@]),
        Handler::Echo => Some(seq![text_arg(t[0])]),
        Handler::Sum => Some(seq![decimal(int_arg(t[0]) + int_arg(t[1]))]),
    }
}

/// The counter's value after a handler ran.
pub open spec fn counter_after(h: Handler, c: int) -> int {
    match h {
        Handler::Increment => if c < i32::MAX {
            c + 1
        } else {
            c
        },
        Handler::Decrement => if c > i32::MIN {
            c - 1
        } else {
            c
        },
        _ => c,
    }
}

/// The validated arguments are what the handler reads: a text for `Echo`,
/// two 32-bit integers for `Sum`.
pub open spec fn args_fit(h: Handler, t: Seq<Option<Value>>) -> bool {
    match h {
        Handler::Echo => t.len() == 1 && t[0] matches Some(Value::Text(_)),
        Handler::Sum => t.len() == 2 && (t[0] matches Some(Value::Int(a)) && i32::MIN <= a
            <= i32::MAX) && (t[1] matches Some(Value::Int(b)) && i32::MIN <= b <= i32::MAX),
        _ => true,
    }
}

/// One dispatch: the session must accept calls, the tool must be registered
/// and the arguments must fit its schema; then the handler runs. The result
/// is the content or the error, and the counter's value afterwards.
pub open spec fn dispatch_spec(
    tools: Seq<ToolDescriptor>,
    state: SessionState,
    c: int,
    req: Request,
) -> (Result<Seq<Seq<char>>, ErrorKind>, int) {
    if !ready(state) {
        (Err(ErrorKind::SessionNotReady), c)
    } else {
        match named(tools, req.tool@) {
            None => (Err(ErrorKind::ToolNotFound), c),
            Some(d) => match validation(d.schema, req.arguments@) {
                Err(e) => (Err(ErrorKind::Validation(e)), c),
                Ok(t) => match reply(d.handler, t, c) {
                    Some(content) => (Ok(content), counter_after(d.handler, c)),
                    None => (Err(ErrorKind::InternalError), c),
                },
            },
        }
    }
}

/// The outcome carries the content, or is the failure, that `r` gives.
pub open spec fn reports(o: Outcome, r: Result<Seq<Seq<char>>, ErrorKind>) -> bool {
    match r {
        Ok(content) => o matches Outcome::Success(v) && texts(v@) == content,
        Err(e) => o == Outcome::Failure(e),
    }
}

/// The call names a registered tool and its arguments fit that tool's schema.
pub open spec fn well_formed(tools: Seq<ToolDescriptor>, req: Request) -> bool {
    named(tools, req.tool@) matches Some(d) && validation(d.schema, req.arguments@) is Ok
}

/// On a session that accepts calls, a call to a registered tool with
/// arguments that fit its schema succeeds, and its content is the handler's
/// reply, whenever the counter is strictly inside the range of `i32`.
pub proof fn lemma_well_formed_call_succeeds(
    tools: Seq<ToolDescriptor>,
    state: SessionState,
    c: int,
    req: Request,
)
    requires
        ready(state),
        well_formed(tools, req),
        i32::MIN < c < i32::MAX,
    ensures
        ({
            let d = named(tools, req.tool@)->Some_0;
            let t = validation(d.schema, req.arguments@)->Ok_0;
            &&& reply(d.handler, t, c) is Some
            &&& dispatch_spec(tools, state, c, req) == (
                Ok::<Seq<Seq<char>>, ErrorKind>(reply(d.handler, t, c)->Some_0),
                counter_after(d.handler, c),
            )
        }),
{
}

/// A call to a tool that is not registered fails with `ToolNotFound`, and no
/// handler runs: the counter keeps its value.
pub proof fn lemma_unknown_tool(tools: Seq<ToolDescriptor>, state: SessionState, c: int, req: Request)
    requires
        ready(state),
        !has_name(tools, req.tool@),
    ensures
        dispatch_spec(tools, state, c, req).0 matches Err(ErrorKind::ToolNotFound),
        dispatch_spec(tools, state, c, req).1 == c,
{
}

/// A call whose arguments do not fit the tool's schema fails with the
/// validation error, and the handler does not run: the counter keeps its value.
pub proof fn lemma_malformed_arguments(
    tools: Seq<ToolDescriptor>,
    state: SessionState,
    c: int,
    req: Request,
)
    requires
        ready(state),
        named(tools, req.tool@) matches Some(d) && validation(d.schema, req.arguments@) is Err,
    ensures
        dispatch_spec(tools, state, c, req).0 == Err::<Seq<Seq<char>>, ErrorKind>(
            ErrorKind::Validation(
                validation(named(tools, req.tool@)->Some_0.schema, req.arguments@)->Err_0,
            ),
        ),
        dispatch_spec(tools, state, c, req).1 == c,
{
}

/// Before the handshake every call fails with `SessionNotReady` and changes
/// nothing; after a handshake for the supported version the session accepts
/// calls, and a well-formed call succeeds.
pub proof fn lemma_session_gate(tools: Seq<ToolDescriptor>, c: int, req: Request)
    ensures
        dispatch_spec(tools, SessionState::Uninitialized, c, req).0 matches Err(
            ErrorKind::SessionNotReady,
        ),
        dispatch_spec(tools, SessionState::Uninitialized, c, req).1 == c,
        ready(state_after_initialize(SessionState::Uninitialized, PROTOCOL_VERSION@)),
        well_formed(tools, req) && i32::MIN < c < i32::MAX ==> dispatch_spec(
            tools,
            state_after_initialize(SessionState::Uninitialized, PROTOCOL_VERSION@),
            c,
            req,
        ).0 is Ok,
{
}

/// A successful call to the increment or decrement tool is one counter
/// operation.
pub proof fn lemma_counter_tools_step(c: int)
    ensures
        c < i32::MAX ==> counter_after(Handler::Increment, c) == apply_op(c, CounterOp::Increment),
        c > i32::MIN ==> counter_after(Handler::Decrement, c) == apply_op(c, CounterOp::Decrement),
{
}

} // verus!
