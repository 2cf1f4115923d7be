//! The tool registry: named, schema-described tools, in registration order.
use vstd::prelude::*;
use crate::error::ErrorKind;
use crate::schema::{validate, validation, Field, FieldType, Schema, Value};

verus! {

/// The behaviour behind a tool.
#[derive(Clone, Copy, Debug, PartialEq, Eq, Structural)]
pub enum Handler {
    /// Adds one to the shared counter and reports the new value.
    Increment,
    /// Subtracts one from the shared counter and reports the new value.
    Decrement,
    /// Reports the shared counter's value.
    GetValue,
    /// Greets the client.
    SayHello,
    /// Reports today's weather.
    TodayWeather,
    /// Repeats its one text parameter.
    Echo,
    /// Adds its two integer parameters.
    Sum,
}

/// A field that a handler reads: required, of the given type.
pub open spec fn reads(f: Field, ty: FieldType) -> bool {
    f.required && f.ty == ty
}

/// The schema declares exactly the parameters that the handler reads, in the
/// order in which it reads them.
pub open spec fn fits(h: Handler, schema: Schema) -> bool {
    let fs = schema.fields@;
    match h {
        Handler::Echo => fs.len() == 1 && reads(fs[0], FieldType::Text),
        Handler::Sum => fs.len() == 2 && reads(fs[0], FieldType::Integer) && reads(
            fs[1],
            FieldType::Integer,
        ),
        _ => fs.len() == 0,
    }
}

/// The schema that a handler declares for itself: what it reads, under the
/// names `saying` for `Echo` and `a`, `b` for `Sum`, ignoring other arguments.
pub open spec fn own_schema(h: Handler, s: Schema) -> bool {
    &&& fits(h, s)
    &&& !s.strict
    &&& match h {
        Handler::Echo => s.fields@[0].name@ == "saying"@,
        Handler::Sum => s.fields@[0].name@ == "a"@ && s.fields@[1].name@ == "b"@,
        _ => true,
    }
}

/// A parameter that a handler reads.
fn param(name: &str, ty: FieldType, description: &str) -> (f: Field)
    ensures
        f.name@ == name@,
        f.description@ == description@,
        reads(f, ty),
{
    Field { name: name.to_string(), ty, required: true, description: description.to_string() }
}

impl Handler {
    /// Whether the schema fits this handler.
    pub fn fits(&self, schema: &Schema) -> (r: bool)
        ensures
            r == fits(*self, *schema),
    {
        let fs = &schema.fields;
        match self {
            Handler::Echo => fs.len() == 1 && fs[0].required && fs[0].ty == FieldType::Text,
            Handler::Sum => fs.len() == 2 && fs[0].required && fs[0].ty == FieldType::Integer
                && fs[1].required && fs[1].ty == FieldType::Integer,
            _ => fs.len() == 0,
        }
    }

    /// The handler's own parameter schema: `saying` for `Echo`, `a` and `b`
    /// for `Sum`, none for the others. Undeclared arguments are ignored.
    pub fn schema(&self) -> (s: Schema)
        ensures
            own_schema(*self, s),
    {
        let mut fields: Vec<Field> = Vec::new();
        match self {
            Handler::Echo => {
                fields.push(param("saying", FieldType::Text, "Repeat what you say"));
            },
            Handler::Sum => {
                fields.push(param("a", FieldType::Integer, "The first number"));
                fields.push(param("b", FieldType::Integer, "The second number"));
            },
            _ => {},
        }
        Schema { fields, strict: false }
    }

    /// Whether the handler touches the shared counter.
    pub fn uses_counter(&self) -> (r: bool)
        ensures
            r == uses_counter(*self),
    {
        match self {
            Handler::Increment | Handler::Decrement | Handler::GetValue => true,
            _ => false,
        }
    }
}

pub open spec fn uses_counter(h: Handler) -> bool {
    h is Increment || h is Decrement || h is GetValue
}

/// A registered tool.
#[derive(Debug)]
pub struct ToolDescriptor {
    pub name: String,
    pub description: String,
    pub schema: Schema,
    pub handler: Handler,
}

impl ToolDescriptor {
    /// A descriptor whose schema is the handler's own.
    pub fn new(name: String, description: String, handler: Handler) -> (d: ToolDescriptor)
        ensures
            d.name == name,
            d.description == description,
            d.handler == handler,
            own_schema(handler, d.schema),
    {
        let schema = handler.schema();
        ToolDescriptor { name, description, schema, handler }
    }
}

/// Why a registration was refused.
#[derive(Clone, Copy, Debug, PartialEq, Eq, Structural)]
pub enum RegistryError {
    /// A tool of that name is registered already.
    DuplicateName,
    /// The schema does not declare what the handler reads.
    SchemaMismatch,
}

/// Some registered tool is named `name`.
pub open spec fn has_name(tools: Seq<ToolDescriptor>, name: Seq<char>) -> bool {
    exists|i: int| 0 <= i < tools.len() && tools[i].name@ == name
}

/// Names are unique and every schema fits its handler.
pub open spec fn registry_wf(tools: Seq<ToolDescriptor>) -> bool {
    &&& forall|i: int, j: int|
        0 <= i < tools.len() && 0 <= j < tools.len() && i != j ==> tools[i].name@ != tools[j].name@
    &&& forall|i: int| 0 <= i < tools.len() ==> fits(#[trigger] tools[i].handler, tools[i].schema)
}

/// The tool named `name`, if one is registered.
pub open spec fn named(tools: Seq<ToolDescriptor>, name: Seq<char>) -> Option<ToolDescriptor> {
    if has_name(tools, name) {
        Some(tools[choose|i: int| 0 <= i < tools.len() && tools[i].name@ == name])
    } else {
        None
    }
}

/// The tools of a server, in the order of their registration.
pub struct ToolRegistry {
    tools: Vec<ToolDescriptor>,
}

impl View for ToolRegistry {
    type V = Seq<ToolDescriptor>;

    closed spec fn view(&self) -> Seq<ToolDescriptor> {
        self.tools@
    }
}

impl ToolRegistry {
    #[verifier::type_invariant]
    closed spec fn inv(&self) -> bool {
        registry_wf(self.tools@)
    }

    /// An empty registry.
    pub fn new() -> (r: ToolRegistry)
        ensures
            r@ == Seq::<ToolDescriptor>::empty(),
            registry_wf(r@),
    {
        ToolRegistry { tools: Vec::new() }
    }

    /// Adds a tool at the end. Refused, with the registry unchanged, where the
    /// name is taken or the schema does not fit the handler.
    pub fn register(&mut self, d: ToolDescriptor) -> (r: Result<(), RegistryError>)
        ensures
            has_name(old(self)@, d.name@) ==> r == Err::<(), RegistryError>(
                RegistryError::DuplicateName,
            ) && final(self)@ == old(self)@,
            !has_name(old(self)@, d.name@) && !fits(d.handler, d.schema) ==> r == Err::<
                (),
                RegistryError,
            >(RegistryError::SchemaMismatch) && final(self)@ == old(self)@,
            !has_name(old(self)@, d.name@) && fits(d.handler, d.schema) ==> r is Ok
                && final(self)@ == old(self)@.push(d),
            registry_wf(final(self)@),
    {
        proof {
            use_type_invariant(&*self);
        }
        if self.position(&d.name).is_some() {
            proof {
                use_type_invariant(&*self);
            }
            return Err(RegistryError::DuplicateName);
        }
        if !d.handler.fits(&d.schema) {
            proof {
                use_type_invariant(&*self);
            }
            return Err(RegistryError::SchemaMismatch);
        }
        let ghost before = self.tools@;
        let mut tools: Vec<ToolDescriptor> = Vec::new();
        std::mem::swap(&mut tools, &mut self.tools);
        tools.push(d);
        proof {
            assert(tools@ == before.push(d));
            assert forall|i: int, j: int|
                0 <= i < tools@.len() && 0 <= j < tools@.len() && i != j implies
                tools@[i].name@ != tools@[j].name@ by {
                if i == before.len() as int {
                    assert(!(0 <= j < before.len() && before[j].name@ == d.name@));
                } else if j == before.len() as int {
                    assert(!(0 <= i < before.len() && before[i].name@ == d.name@));
                }
            }
        }
        std::mem::swap(&mut tools, &mut self.tools);
        proof {
            use_type_invariant(&*self);
        }
        Ok(())
    }

    /// The position of the tool named `name`.
    fn position(&self, name: &String) -> (r: Option<usize>)
        ensures
            match r {
                Some(i) => i < self@.len() && self@[i as int].name@ == name@,
                None => !has_name(self@, name@),
            },
    {
        let mut i: usize = 0;
        while i < self.tools.len()
            invariant
                0 <= i <= self.tools@.len(),
                forall|j: int| 0 <= j < i ==> self.tools@[j].name@ != name@,
            decreases self.tools.len() - i,
        {
            if self.tools[i].name == *name {
                return Some(i);
            }
            i = i + 1;
        }
        None
    }

    /// The tool named `name`.
    pub fn resolve(&self, name: &String) -> (r: Option<&ToolDescriptor>)
        ensures
            registry_wf(self@),
            match r {
                Some(d) => named(self@, name@) == Some(*d),
                None => named(self@, name@) is None,
            },
    {
        proof {
            use_type_invariant(self);
        }
        match self.position(name) {
            Some(i) => {
                proof {
                    let c = choose|c: int| 0 <= c < self@.len() && self@[c].name@ == name@;
                    assert(c == i);
                }
                Some(&self.tools[i])
            },
            None => None,
        }
    }

    /// The parameter schema of the tool named `name`.
    pub fn describe(&self, name: &String) -> (r: Result<&Schema, ErrorKind>)
        ensures
            match named(self@, name@) {
                Some(d) => r matches Ok(s) && *s == d.schema,
                None => r matches Err(ErrorKind::SchemaNotFound),
            },
    {
        match self.resolve(name) {
            Some(d) => Ok(&d.schema),
            None => Err(ErrorKind::SchemaNotFound),
        }
    }

    /// Validates a payload against the schema of the tool named `name`.
    pub fn validate_arguments(&self, name: &String, args: &Vec<(String, Value)>) -> (r: Result<
        Vec<Option<Value>>,
        ErrorKind,
    >)
        ensures
            match named(self@, name@) {
                Some(d) => match validation(d.schema, args@) {
                    Ok(t) => r matches Ok(v) && v@ == t,
                    Err(e) => r == Err::<Vec<Option<Value>>, ErrorKind>(ErrorKind::Validation(e)),
                },
                None => r matches Err(ErrorKind::SchemaNotFound),
            },
    {
        let schema = match self.describe(name) {
            Ok(s) => s,
            Err(e) => {
                return Err(e);
            },
        };
        match validate(schema, args) {
            Ok(t) => Ok(t),
            Err(e) => Err(ErrorKind::Validation(e)),
        }
    }

    /// All tools, in registration order.
    pub fn list(&self) -> (r: &Vec<ToolDescriptor>)
        ensures
            r@ == self@,
            registry_wf(self@),
    {
        proof {
            use_type_invariant(self);
        }
        &self.tools
    }
}

} // verus!
