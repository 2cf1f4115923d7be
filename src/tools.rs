//! The server's tools: the standard registry, the handlers, the handshake
//! and the dispatcher.
use vstd::prelude::*;
use crate::counter::Counter;
use crate::dispatch::{
    args_fit, counter_after, dispatch_spec, reply, reports, texts, Outcome, Request, Response,
    GREETING, WEATHER,
};
use crate::error::ErrorKind;
use crate::registry::{
    fits, has_name, named, own_schema, registry_wf, Handler, ToolDescriptor, ToolRegistry,
};
use crate::schema::{
    check_field, check_fields, first_key_at, lemma_validation_fields, lookup, validate, validation,
    ValidationError, Value,
};
use crate::session::{
    ready, state_after_event, state_after_initialize, Session, SessionState, PROTOCOL_VERSION,
};
use crate::text::{decimal, int_text};

verus! {

/// The instructions that the handshake hands to the client.
pub const INSTRUCTIONS: &'static str = "This server provides a counter tool that can increment and decrement values. The counter starts at 0 and can be modified using the 'increment' and 'decrement' tools. Use 'get_value' to check the current count.";

/// The arguments of `sum`.
#[derive(Clone, Copy, Debug, PartialEq, Eq, Structural)]
pub struct StructRequest {
    pub a: i32,
    pub b: i32,
}

/// What the handshake answers: the protocol version, whether tools are
/// offered, and instructions for the client.
#[derive(Debug)]
pub struct ServerInfo {
    pub protocol_version: String,
    pub tools_enabled: bool,
    pub instructions: String,
}

/// The registry entry `d` is the tool `name` with handler `h` and the
/// handler's own schema.
pub open spec fn entry(d: ToolDescriptor, name: Seq<char>, h: Handler) -> bool {
    d.name@ == name && d.handler == h && own_schema(h, d.schema)
}

/// The seven tools of this server, in registration order.
pub open spec fn standard_tools(s: Seq<ToolDescriptor>) -> bool {
    &&& s.len() == 7
    &&& entry(s[0], "increment"@, Handler::Increment)
    &&& entry(s[1], "decrement"@, Handler::Decrement)
    &&& entry(s[2], "get_value"@, Handler::GetValue)
    &&& entry(s[3], "say_hello"@, Handler::SayHello)
    &&& entry(s[4], "today_weather"@, Handler::TodayWeather)
    &&& entry(s[5], "echo"@, Handler::Echo)
    &&& entry(s[6], "sum"@, Handler::Sum)
}

/// One content item.
fn single(s: String) -> (r: Vec<String>)
    ensures
        texts(r@) == seq![s@],
{
    let mut r: Vec<String> = Vec::new();
    r.push(s);
    assert(texts(r@) =~= seq![s@]);
    r
}

/// Registers a tool whose name is free.
fn add_tool(reg: &mut ToolRegistry, name: &str, description: &str, h: Handler)
    requires
        !has_name(old(reg)@, name@),
    ensures
        final(reg)@.len() == old(reg)@.len() + 1,
        final(reg)@.drop_last() == old(reg)@,
        entry(final(reg)@.last(), name@, h),
        registry_wf(old(reg)@) ==> registry_wf(final(reg)@),
{
    let d = ToolDescriptor::new(name.to_string(), description.to_string(), h);
    let r = reg.register(d);
    proof {
        assert(final(reg)@.drop_last() =~= old(reg)@);
    }
}

/// The server's tool set.
pub struct Tools {
    registry: ToolRegistry,
}

impl View for Tools {
    type V = Seq<ToolDescriptor>;

    closed spec fn view(&self) -> Seq<ToolDescriptor> {
        self.registry@
    }
}

impl Tools {
    /// The standard tools: the counter's three, a greeting, the weather,
    /// `echo` and `sum`.
    pub fn new() -> (t: Tools)
        ensures
            standard_tools(t@),
            registry_wf(t@),
    {
        proof {
            reveal_strlit("increment");
            reveal_strlit("decrement");
            reveal_strlit("get_value");
            reveal_strlit("say_hello");
            reveal_strlit("today_weather");
            reveal_strlit("echo");
            reveal_strlit("sum");
        }
        let mut reg = ToolRegistry::new();
        add_tool(
            &mut reg,
            "increment",
            "Increment the counter by 1 and get the value of counter after increment",
            Handler::Increment,
        );
        let ghost s1 = reg@;
        assert("decrement"@[0] != "increment"@[0]);
        assert(!has_name(reg@, "decrement"@));
        add_tool(
            &mut reg,
            "decrement",
            "Decrement the counter by 1, and get the value of counter after decrement",
            Handler::Decrement,
        );
        let ghost s2 = reg@;
        assert(s2[0] == s1[0]);
        assert("get_value"@[0] != "increment"@[0]);
        assert("get_value"@[0] != "decrement"@[0]);
        assert(!has_name(reg@, "get_value"@));
        add_tool(&mut reg, "get_value", "Get the current counter value", Handler::GetValue);
        let ghost s3 = reg@;
        assert(s3[0] == s2[0] && s3[1] == s2[1]);
        assert("say_hello"@[0] != "increment"@[0]);
        assert("say_hello"@[0] != "decrement"@[0]);
        assert("say_hello"@[0] != "get_value"@[0]);
        assert(!has_name(reg@, "say_hello"@));
        add_tool(&mut reg, "say_hello", "Say hello to the client", Handler::SayHello);
        let ghost s4 = reg@;
        assert(s4[0] == s3[0] && s4[1] == s3[1] && s4[2] == s3[2]);
        assert("today_weather"@.len() != "increment"@.len());
        assert("today_weather"@.len() != "decrement"@.len());
        assert("today_weather"@.len() != "get_value"@.len());
        assert("today_weather"@.len() != "say_hello"@.len());
        assert(!has_name(reg@, "today_weather"@));
        add_tool(&mut reg, "today_weather", "Get today weather", Handler::TodayWeather);
        let ghost s5 = reg@;
        assert(s5[0] == s4[0] && s5[1] == s4[1] && s5[2] == s4[2] && s5[3] == s4[3]);
        assert("echo"@.len() != "increment"@.len());
        assert("echo"@.len() != "decrement"@.len());
        assert("echo"@.len() != "get_value"@.len());
        assert("echo"@.len() != "say_hello"@.len());
        assert("echo"@.len() != "today_weather"@.len());
        assert(!has_name(reg@, "echo"@));
        add_tool(&mut reg, "echo", "Repeat what you say", Handler::Echo);
        let ghost s6 = reg@;
        assert(s6[0] == s5[0] && s6[1] == s5[1] && s6[2] == s5[2] && s6[3] == s5[3] && s6[4]
            == s5[4]);
        assert("sum"@.len() != "increment"@.len());
        assert("sum"@.len() != "decrement"@.len());
        assert("sum"@.len() != "get_value"@.len());
        assert("sum"@.len() != "say_hello"@.len());
        assert("sum"@.len() != "today_weather"@.len());
        assert("sum"@.len() != "echo"@.len());
        assert(!has_name(reg@, "sum"@));
        add_tool(&mut reg, "sum", "Calculate the sum of two numbers", Handler::Sum);
        let ghost s7 = reg@;
        assert(s7[0] == s6[0] && s7[1] == s6[1] && s7[2] == s6[2] && s7[3] == s6[3] && s7[4]
            == s6[4] && s7[5] == s6[5]);
        Tools { registry: reg }
    }

    /// The registry, for capability discovery.
    pub fn registry(&self) -> (r: &ToolRegistry)
        ensures
            r@ == self@,
    {
        &self.registry
    }

    /// Adds one to the counter and replies with the new value; at
    /// `i32::MAX` fails with `InternalError` and leaves the counter alone.
    pub fn increment(&self, counter: &mut Counter) -> (r: Result<Vec<String>, ErrorKind>)
        ensures
            old(counter)@ < i32::MAX ==> final(counter)@ == old(counter)@ + 1 && (r matches Ok(v)
                && texts(v@) == seq![decimal(old(counter)@ + 1)]),
            old(counter)@ == i32::MAX ==> final(counter)@ == old(counter)@ && r matches Err(
                ErrorKind::InternalError,
            ),
    {
        proof {
            counter.lemma_in_range();
        }
        match counter.increment() {
            Some(v) => Ok(single(int_text(v as i64))),
            None => Err(ErrorKind::InternalError),
        }
    }

    /// Subtracts one from the counter and replies with the new value; at
    /// `i32::MIN` fails with `InternalError` and leaves the counter alone.
    pub fn decrement(&self, counter: &mut Counter) -> (r: Result<Vec<String>, ErrorKind>)
        ensures
            old(counter)@ > i32::MIN ==> final(counter)@ == old(counter)@ - 1 && (r matches Ok(v)
                && texts(v@) == seq![decimal(old(counter)@ - 1)]),
            old(counter)@ == i32::MIN ==> final(counter)@ == old(counter)@ && r matches Err(
                ErrorKind::InternalError,
            ),
    {
        proof {
            counter.lemma_in_range();
        }
        match counter.decrement() {
            Some(v) => Ok(single(int_text(v as i64))),
            None => Err(ErrorKind::InternalError),
        }
    }

    /// Replies with the counter's value.
    pub fn get_value(&self, counter: &Counter) -> (r: Vec<String>)
        ensures
            texts(r@) == seq![decimal(counter@)],
    {
        single(int_text(counter.get_value() as i64))
    }

    /// Replies with a greeting.
    pub fn say_hello(&self) -> (r: Vec<String>)
        ensures
            texts(r@) == seq![GREETING@],
    {
        single(String::from_str(GREETING))
    }

    /// Replies with today's weather.
    pub fn get_today_weather(&self) -> (r: Vec<String>)
        ensures
            texts(r@) == seq![WEATHER@],
    {
        single(String::from_str(WEATHER))
    }

    /// Replies with what was said.
    pub fn echo(&self, saying: String) -> (r: Vec<String>)
        ensures
            texts(r@) == seq![saying@],
    {
        single(saying)
    }

    /// Replies with the sum of the two numbers.
    pub fn sum(&self, req: StructRequest) -> (r: Vec<String>)
        ensures
            texts(r@) == seq![decimal(req.a + req.b)],
    {
        single(int_text(req.a as i64 + req.b as i64))
    }

    /// The handshake answer.
    pub fn get_info(&self) -> (r: ServerInfo)
        ensures
            r.protocol_version@ == PROTOCOL_VERSION@,
            r.tools_enabled,
            r.instructions@ == INSTRUCTIONS@,
    {
        ServerInfo {
            protocol_version: String::from_str(PROTOCOL_VERSION),
            tools_enabled: true,
            instructions: String::from_str(INSTRUCTIONS),
        }
    }

    /// Answers a handshake that asks for `version`, as the session's
    /// lifecycle allows.
    pub fn initialize(&self, session: &mut Session, version: &String) -> (r: Result<
        ServerInfo,
        ErrorKind,
    >)
        ensures
            final(session).state == state_after_initialize(old(session).state, version@),
            old(session).state is Uninitialized && version@ == PROTOCOL_VERSION@ ==> (r matches Ok(info)
                && info.protocol_version@ == PROTOCOL_VERSION@ && info.tools_enabled
                && info.instructions@ == INSTRUCTIONS@),
            old(session).state is Uninitialized && version@ != PROTOCOL_VERSION@ ==> r matches Err(
                ErrorKind::UnsupportedVersion,
            ),
            ready(old(session).state) ==> r matches Err(ErrorKind::AlreadyInitialized),
            old(session).state is Closed ==> r matches Err(ErrorKind::SessionNotReady),
    {
        match session.initialize(version) {
            Ok(()) => Ok(self.get_info()),
            Err(e) => Err(e),
        }
    }

    /// Runs a handler on validated arguments.
    fn invoke(&self, h: Handler, t: &Vec<Option<Value>>, counter: &mut Counter) -> (r: Result<
        Vec<String>,
        ErrorKind,
    >)
        requires
            args_fit(h, t@),
        ensures
            final(counter)@ == counter_after(h, old(counter)@),
            match reply(h, t@, old(counter)@) {
                Some(content) => r matches Ok(v) && texts(v@) == content,
                None => r matches Err(ErrorKind::InternalError),
            },
    {
        proof {
            counter.lemma_in_range();
        }
        match h {
            Handler::Increment => self.increment(counter),
            Handler::Decrement => self.decrement(counter),
            Handler::GetValue => Ok(self.get_value(counter)),
            Handler::SayHello => Ok(self.say_hello()),
            Handler::TodayWeather => Ok(self.get_today_weather()),
            Handler::Echo => match &t[0] {
                Some(Value::Text(s)) => Ok(self.echo(s.clone())),
                _ => Err(ErrorKind::InternalError),
            },
            Handler::Sum => match (&t[0], &t[1]) {
                (Some(Value::Int(a)), Some(Value::Int(b))) => Ok(
                    self.sum(StructRequest { a: *a as i32, b: *b as i32 }),
                ),
                _ => Err(ErrorKind::InternalError),
            },
        }
    }

    /// Handles one tool call: checks that the session accepts calls, resolves
    /// the tool, validates the arguments against its schema and runs its
    /// handler. Every failure becomes a failure response; the response
    /// carries the request's token.
    pub fn dispatch(&self, session: &mut Session, counter: &mut Counter, req: &Request) -> (r:
        Response)
        ensures
            r.id == req.id,
            reports(r.outcome, dispatch_spec(self@, old(session).state, old(counter)@, *req).0),
            final(counter)@ == dispatch_spec(self@, old(session).state, old(counter)@, *req).1,
            final(session).state == state_after_event(old(session).state),
    {
        let id = req.id.duplicate();
        session.observe_event();
        if !session.is_ready() {
            return Response { id, outcome: Outcome::Failure(ErrorKind::SessionNotReady) };
        }
        let d = match self.registry.resolve(&req.tool) {
            Some(d) => d,
            None => {
                return Response { id, outcome: Outcome::Failure(ErrorKind::ToolNotFound) };
            },
        };
        let t = match validate(&d.schema, &req.arguments) {
            Ok(t) => t,
            Err(e) => {
                return Response { id, outcome: Outcome::Failure(ErrorKind::Validation(e)) };
            },
        };
        proof {
            lemma_resolved_fits(self@, req.tool@);
            lemma_validation_fields(d.schema, req.arguments@);
        }
        let outcome = match self.invoke(d.handler, &t, counter) {
            Ok(v) => Outcome::Success(v),
            Err(e) => Outcome::Failure(e),
        };
        Response { id, outcome }
    }
}

/// Among the standard tools, `sum` called with two 32-bit integers `a` and
/// `b`, given in that order, replies with the decimal text of `a + b` and
/// leaves the counter alone.
pub proof fn lemma_sum_call(
    tools: Seq<ToolDescriptor>,
    state: SessionState,
    c: int,
    req: Request,
    a: i64,
    b: i64,
)
    requires
        standard_tools(tools),
        registry_wf(tools),
        ready(state),
        req.tool@ == "sum"@,
        req.arguments@.len() == 2,
        req.arguments@[0].0@ == "a"@,
        req.arguments@[0].1 == Value::Int(a),
        req.arguments@[1].0@ == "b"@,
        req.arguments@[1].1 == Value::Int(b),
        i32::MIN <= a <= i32::MAX,
        i32::MIN <= b <= i32::MAX,
    ensures
        dispatch_spec(tools, state, c, req) == (
            Ok::<Seq<Seq<char>>, ErrorKind>(seq![decimal(a + b)]),
            c,
        ),
{
    reveal_strlit("a");
    reveal_strlit("b");
    let args = req.arguments@;
    assert("a"@[0] != "b"@[0]);
    let i = choose|i: int| 0 <= i < tools.len() && tools[i].name@ == "sum"@;
    assert(0 <= 6 < tools.len() && tools[6].name@ == "sum"@);
    assert(i == 6);
    let d = tools[6];
    assert(named(tools, "sum"@) == Some(d));
    let fields = d.schema.fields@;
    assert(first_key_at(args, "a"@, 0));
    assert(first_key_at(args, "b"@, 1));
    let ka = choose|j: int| first_key_at(args, "a"@, j);
    let kb = choose|j: int| first_key_at(args, "b"@, j);
    assert(ka == 0);
    assert(kb == 1);
    assert(lookup(args, "a"@) == Some(Value::Int(a)));
    assert(lookup(args, "b"@) == Some(Value::Int(b)));
    assert(fields.drop_last().drop_last().len() == 0);
    assert(fields.drop_last().last() == fields[0]);
    let t = seq![Some(Value::Int(a)), Some(Value::Int(b))];
    assert(check_fields(fields.drop_last(), args) == Ok::<Seq<Option<Value>>, ValidationError>(
        seq![Some(Value::Int(a))],
    )) by {
        assert(check_fields(fields.drop_last().drop_last(), args) == Ok::<
            Seq<Option<Value>>,
            ValidationError,
        >(Seq::empty()));
        assert(fields[0].name@ == "a"@);
        assert(check_field(fields[0], args) == Ok::<Option<Value>, ValidationError>(
            Some(Value::Int(a)),
        ));
        assert(seq![Some(Value::Int(a))] =~= Seq::<Option<Value>>::empty().push(Some(Value::Int(a))));
    }
    assert(check_fields(fields, args) == Ok::<Seq<Option<Value>>, ValidationError>(t)) by {
        assert(t =~= seq![Some(Value::Int(a))].push(Some(Value::Int(b))));
    }
    assert(validation(d.schema, args) == Ok::<Seq<Option<Value>>, ValidationError>(t));
}

/// Among the standard tools, `echo` called with a text under `saying` replies
/// with that text.
pub proof fn lemma_echo_call(
    tools: Seq<ToolDescriptor>,
    state: SessionState,
    c: int,
    req: Request,
    saying: String,
)
    requires
        standard_tools(tools),
        registry_wf(tools),
        ready(state),
        req.tool@ == "echo"@,
        req.arguments@.len() == 1,
        req.arguments@[0].0@ == "saying"@,
        req.arguments@[0].1 == Value::Text(saying),
    ensures
        dispatch_spec(tools, state, c, req) == (Ok::<Seq<Seq<char>>, ErrorKind>(seq![saying@]), c),
{
    let args = req.arguments@;
    let i = choose|i: int| 0 <= i < tools.len() && tools[i].name@ == "echo"@;
    assert(0 <= 5 < tools.len() && tools[5].name@ == "echo"@);
    assert(i == 5);
    let d = tools[5];
    let fields = d.schema.fields@;
    assert(first_key_at(args, "saying"@, 0));
    let k = choose|j: int| first_key_at(args, "saying"@, j);
    assert(k == 0);
    assert(lookup(args, "saying"@) == Some(Value::Text(saying)));
    assert(fields.drop_last().len() == 0);
    assert(fields[0].name@ == "saying"@);
    assert(check_field(fields[0], args) == Ok::<Option<Value>, ValidationError>(
        Some(Value::Text(saying)),
    ));
    assert(check_fields(fields.drop_last(), args) == Ok::<Seq<Option<Value>>, ValidationError>(
        Seq::empty(),
    ));
    let t = seq![Some(Value::Text(saying))];
    assert(t =~= Seq::<Option<Value>>::empty().push(Some(Value::Text(saying))));
    assert(validation(d.schema, args) == Ok::<Seq<Option<Value>>, ValidationError>(t));
}

/// Among the standard tools, `say_hello` replies with the greeting, whatever
/// arguments come with it.
pub proof fn lemma_say_hello_call(
    tools: Seq<ToolDescriptor>,
    state: SessionState,
    c: int,
    req: Request,
)
    requires
        standard_tools(tools),
        registry_wf(tools),
        ready(state),
        req.tool@ == "say_hello"@,
    ensures
        dispatch_spec(tools, state, c, req) == (
            Ok::<Seq<Seq<char>>, ErrorKind>(seq![GREETING@]),
            c,
        ),
{
    let i = choose|i: int| 0 <= i < tools.len() && tools[i].name@ == "say_hello"@;
    assert(0 <= 3 < tools.len() && tools[3].name@ == "say_hello"@);
    assert(i == 3);
    let d = tools[3];
    assert(check_fields(d.schema.fields@, req.arguments@) == Ok::<
        Seq<Option<Value>>,
        ValidationError,
    >(Seq::empty()));
}

/// Among the standard tools, `increment` and `decrement` move the counter by
/// one and reply with its new value, and `get_value` replies with the value,
/// whatever arguments come with them, while the counter is strictly inside
/// the range of `i32`.
pub proof fn lemma_counter_calls(
    tools: Seq<ToolDescriptor>,
    state: SessionState,
    c: int,
    req: Request,
)
    requires
        standard_tools(tools),
        registry_wf(tools),
        ready(state),
        i32::MIN < c < i32::MAX,
    ensures
        req.tool@ == "increment"@ ==> dispatch_spec(tools, state, c, req) == (
            Ok::<Seq<Seq<char>>, ErrorKind>(seq![decimal(c + 1)]),
            c + 1,
        ),
        req.tool@ == "decrement"@ ==> dispatch_spec(tools, state, c, req) == (
            Ok::<Seq<Seq<char>>, ErrorKind>(seq![decimal(c - 1)]),
            c - 1,
        ),
        req.tool@ == "get_value"@ ==> dispatch_spec(tools, state, c, req) == (
            Ok::<Seq<Seq<char>>, ErrorKind>(seq![decimal(c)]),
            c,
        ),
{
    let args = req.arguments@;
    if req.tool@ == "increment"@ {
        let i = choose|i: int| 0 <= i < tools.len() && tools[i].name@ == "increment"@;
        assert(0 <= 0 < tools.len() && tools[0].name@ == "increment"@);
        assert(i == 0);
        assert(check_fields(tools[0].schema.fields@, args) == Ok::<
            Seq<Option<Value>>,
            ValidationError,
        >(Seq::empty()));
    }
    if req.tool@ == "decrement"@ {
        let i = choose|i: int| 0 <= i < tools.len() && tools[i].name@ == "decrement"@;
        assert(0 <= 1 < tools.len() && tools[1].name@ == "decrement"@);
        assert(i == 1);
        assert(check_fields(tools[1].schema.fields@, args) == Ok::<
            Seq<Option<Value>>,
            ValidationError,
        >(Seq::empty()));
    }
    if req.tool@ == "get_value"@ {
        let i = choose|i: int| 0 <= i < tools.len() && tools[i].name@ == "get_value"@;
        assert(0 <= 2 < tools.len() && tools[2].name@ == "get_value"@);
        assert(i == 2);
        assert(check_fields(tools[2].schema.fields@, args) == Ok::<
            Seq<Option<Value>>,
            ValidationError,
        >(Seq::empty()));
    }
}

/// The schema of a resolved tool fits its handler.
proof fn lemma_resolved_fits(tools: Seq<ToolDescriptor>, name: Seq<char>)
    requires
        registry_wf(tools),
        named(tools, name) is Some,
    ensures
        fits(named(tools, name)->Some_0.handler, named(tools, name)->Some_0.schema),
{
    let i = choose|i: int| 0 <= i < tools.len() && tools[i].name@ == name;
    assert(fits(tools[i].handler, tools[i].schema));
}

} // verus!
