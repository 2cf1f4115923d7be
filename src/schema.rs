//! Parameter schemas of tools and the validation of argument payloads.
use vstd::prelude::*;

verus! {

/// One value of an untyped argument payload. Values that no parameter type
/// accepts (a non-integral number, a list, an object) are kept as their kind.
#[derive(Debug)]
pub enum Value {
    Null,
    Bool(bool),
    Int(i64),
    Text(String),
    Number,
    List,
    Object,
}

/// What kind of value a payload holds for a field, or that it holds none.
#[derive(Clone, Copy, Debug, PartialEq, Eq, Structural)]
pub enum ValueKind {
    Missing,
    Null,
    Boolean,
    Integer,
    WideInteger,
    Text,
    Number,
    List,
    Object,
}

/// The type of a declared parameter. `Integer` is a 32-bit signed integer.
#[derive(Clone, Copy, Debug, PartialEq, Eq, Structural)]
pub enum FieldType {
    Integer,
    Boolean,
    Text,
}

/// The kind of a value; an integer outside the range of `i32` is wide.
pub open spec fn kind_of(v: Value) -> ValueKind {
    match v {
        Value::Null => ValueKind::Null,
        Value::Bool(_) => ValueKind::Boolean,
        Value::Int(i) => if i32::MIN <= i <= i32::MAX {
            ValueKind::Integer
        } else {
            ValueKind::WideInteger
        },
        Value::Text(_) => ValueKind::Text,
        Value::Number => ValueKind::Number,
        Value::List => ValueKind::List,
        Value::Object => ValueKind::Object,
    }
}

/// The one kind of value that a parameter type accepts.
pub open spec fn accepted_kind(ty: FieldType) -> ValueKind {
    match ty {
        FieldType::Integer => ValueKind::Integer,
        FieldType::Boolean => ValueKind::Boolean,
        FieldType::Text => ValueKind::Text,
    }
}

impl Value {
    pub fn kind(&self) -> (r: ValueKind)
        ensures
            r == kind_of(*self),
    {
        match self {
            Value::Null => ValueKind::Null,
            Value::Bool(_) => ValueKind::Boolean,
            Value::Int(i) => if i32::MIN as i64 <= *i && *i <= i32::MAX as i64 {
                ValueKind::Integer
            } else {
                ValueKind::WideInteger
            },
            Value::Text(_) => ValueKind::Text,
            Value::Number => ValueKind::Number,
            Value::List => ValueKind::List,
            Value::Object => ValueKind::Object,
        }
    }

    /// A copy of the value.
    pub fn duplicate(&self) -> (r: Value)
        ensures
            r == *self,
    {
        match self {
            Value::Null => Value::Null,
            Value::Bool(b) => Value::Bool(*b),
            Value::Int(i) => Value::Int(*i),
            Value::Text(s) => Value::Text(s.clone()),
            Value::Number => Value::Number,
            Value::List => Value::List,
            Value::Object => Value::Object,
        }
    }
}

impl FieldType {
    pub fn accepted_kind(&self) -> (r: ValueKind)
        ensures
            r == accepted_kind(*self),
    {
        match self {
            FieldType::Integer => ValueKind::Integer,
            FieldType::Boolean => ValueKind::Boolean,
            FieldType::Text => ValueKind::Text,
        }
    }
}

/// A declared parameter.
#[derive(Debug)]
pub struct Field {
    pub name: String,
    pub ty: FieldType,
    pub required: bool,
    pub description: String,
}

/// The parameters of a tool. A strict schema rejects arguments that it does
/// not declare; a lenient one ignores them.
#[derive(Debug)]
pub struct Schema {
    pub fields: Vec<Field>,
    pub strict: bool,
}

/// Why a payload was rejected: the field concerned, the type declared for it
/// (`None` where the schema declares no such field), and what the payload held.
#[derive(Debug)]
pub struct ValidationError {
    pub field: String,
    pub expected: Option<FieldType>,
    pub got: ValueKind,
}

/// `i` is the first position of the payload whose key is `name`.
pub open spec fn first_key_at(args: Seq<(String, Value)>, name: Seq<char>, i: int) -> bool {
    &&& 0 <= i < args.len()
    &&& args[i].0@ == name
    &&& forall|j: int| 0 <= j < i ==> args[j].0@ != name
}

/// The value given for `name`: that of its first occurrence, if any.
pub open spec fn lookup(args: Seq<(String, Value)>, name: Seq<char>) -> Option<Value> {
    if exists|i: int| first_key_at(args, name, i) {
        Some(args[choose|i: int| first_key_at(args, name, i)].1)
    } else {
        None
    }
}

/// The outcome for one declared field: the value given (`None` for an absent
/// optional field), or the error.
pub open spec fn check_field(f: Field, args: Seq<(String, Value)>) -> Result<
    Option<Value>,
    ValidationError,
> {
    match lookup(args, f.name@) {
        None => if f.required {
            Err(ValidationError { field: f.name, expected: Some(f.ty), got: ValueKind::Missing })
        } else {
            Ok(None)
        },
        Some(v) => if kind_of(v) == accepted_kind(f.ty) {
            Ok(Some(v))
        } else {
            Err(ValidationError { field: f.name, expected: Some(f.ty), got: kind_of(v) })
        },
    }
}

/// The declared fields checked in order: the first error, or one entry per field.
pub open spec fn check_fields(fields: Seq<Field>, args: Seq<(String, Value)>) -> Result<
    Seq<Option<Value>>,
    ValidationError,
>
    decreases fields.len(),
{
    if fields.len() == 0 {
        Ok(Seq::empty())
    } else {
        match check_fields(fields.drop_last(), args) {
            Err(e) => Err(e),
            Ok(t) => match check_field(fields.last(), args) {
                Err(e) => Err(e),
                Ok(o) => Ok(t.push(o)),
            },
        }
    }
}

pub open spec fn declares(fields: Seq<Field>, name: Seq<char>) -> bool {
    exists|k: int| 0 <= k < fields.len() && fields[k].name@ == name
}

/// The first argument, in payload order, that the fields do not declare.
pub open spec fn first_unknown(fields: Seq<Field>, args: Seq<(String, Value)>) -> Option<
    ValidationError,
>
    decreases args.len(),
{
    if args.len() == 0 {
        None
    } else {
        match first_unknown(fields, args.drop_last()) {
            Some(e) => Some(e),
            None => if declares(fields, args.last().0@) {
                None
            } else {
                Some(
                    ValidationError {
                        field: args.last().0,
                        expected: None,
                        got: kind_of(args.last().1),
                    },
                )
            },
        }
    }
}

/// Validation of a payload against a schema: the declared fields first, then,
/// for a strict schema, the undeclared arguments.
pub open spec fn validation(schema: Schema, args: Seq<(String, Value)>) -> Result<
    Seq<Option<Value>>,
    ValidationError,
> {
    match check_fields(schema.fields@, args) {
        Err(e) => Err(e),
        Ok(t) => if schema.strict {
            match first_unknown(schema.fields@, args) {
                Some(e) => Err(e),
                None => Ok(t),
            }
        } else {
            Ok(t)
        },
    }
}

/// A successful validation gives, for each declared field in order, the value
/// that the field's own check gives.
pub proof fn lemma_validation_fields(schema: Schema, args: Seq<(String, Value)>)
    requires
        validation(schema, args) is Ok,
    ensures
        validation(schema, args)->Ok_0.len() == schema.fields@.len(),
        forall|k: int|
            0 <= k < schema.fields@.len() ==> check_field(schema.fields@[k], args) == Ok::<
                Option<Value>,
                ValidationError,
            >(#[trigger] validation(schema, args)->Ok_0[k]),
{
    lemma_check_fields_ok(schema.fields@, args);
}

proof fn lemma_check_fields_ok(fields: Seq<Field>, args: Seq<(String, Value)>)
    ensures
        check_fields(fields, args) is Ok ==> {
            let t = check_fields(fields, args)->Ok_0;
            &&& t.len() == fields.len()
            &&& forall|k: int|
                0 <= k < fields.len() ==> check_field(fields[k], args) == Ok::<
                    Option<Value>,
                    ValidationError,
                >(#[trigger] t[k])
        },
    decreases fields.len(),
{
    if fields.len() > 0 {
        lemma_check_fields_ok(fields.drop_last(), args);
    }
}

proof fn lemma_first_key_unique(args: Seq<(String, Value)>, name: Seq<char>, i: int, j: int)
    requires
        first_key_at(args, name, i),
        first_key_at(args, name, j),
    ensures
        i == j,
{
}

proof fn lemma_fields_error_kept(fields: Seq<Field>, args: Seq<(String, Value)>, i: int, j: int)
    requires
        0 <= i <= j <= fields.len(),
        check_fields(fields.take(i), args) is Err,
    ensures
        check_fields(fields.take(j), args) == check_fields(fields.take(i), args),
    decreases j - i,
{
    if j > i {
        lemma_fields_error_kept(fields, args, i, j - 1);
        assert(fields.take(j).drop_last() =~= fields.take(j - 1));
    }
}

proof fn lemma_unknown_kept(fields: Seq<Field>, args: Seq<(String, Value)>, i: int, j: int)
    requires
        0 <= i <= j <= args.len(),
        first_unknown(fields, args.take(i)) is Some,
    ensures
        first_unknown(fields, args.take(j)) == first_unknown(fields, args.take(i)),
    decreases j - i,
{
    if j > i {
        lemma_unknown_kept(fields, args, i, j - 1);
        assert(args.take(j).drop_last() =~= args.take(j - 1));
    }
}

/// The position of the first argument named `name`.
fn find_arg(args: &Vec<(String, Value)>, name: &String) -> (r: Option<usize>)
    ensures
        match r {
            Some(i) => first_key_at(args@, name@, i as int),
            None => forall|i: int| 0 <= i < args@.len() ==> args@[i].0@ != name@,
        },
{
    let mut i: usize = 0;
    while i < args.len()
        invariant
            0 <= i <= args@.len(),
            forall|j: int| 0 <= j < i ==> args@[j].0@ != name@,
        decreases args.len() - i,
    {
        if args[i].0 == *name {
            return Some(i);
        }
        i = i + 1;
    }
    None
}

/// Whether `name` is among the fields' names.
fn declared(fields: &Vec<Field>, name: &String) -> (r: bool)
    ensures
        r == declares(fields@, name@),
{
    let mut k: usize = 0;
    while k < fields.len()
        invariant
            0 <= k <= fields@.len(),
            forall|j: int| 0 <= j < k ==> fields@[j].name@ != name@,
        decreases fields.len() - k,
    {
        if fields[k].name == *name {
            return true;
        }
        k = k + 1;
    }
    false
}

/// Checks a payload against a schema. On success the result holds, for each
/// declared field in order, the value given for it (`None` for an absent
/// optional field); otherwise the first failure.
pub fn validate(schema: &Schema, args: &Vec<(String, Value)>) -> (r: Result<
    Vec<Option<Value>>,
    ValidationError,
>)
    ensures
        match r {
            Ok(t) => validation(*schema, args@) == Ok::<Seq<Option<Value>>, ValidationError>(t@),
            Err(e) => validation(*schema, args@) == Err::<Seq<Option<Value>>, ValidationError>(e),
        },
{
    let fields = &schema.fields;
    let mut typed: Vec<Option<Value>> = Vec::new();
    let mut i: usize = 0;
    while i < fields.len()
        invariant
            0 <= i <= fields@.len(),
            fields == schema.fields,
            check_fields(fields@.take(i as int), args@) == Ok::<
                Seq<Option<Value>>,
                ValidationError,
            >(typed@),
        decreases fields.len() - i,
    {
        let f = &fields[i];
        let ghost prefix = fields@.take(i + 1);
        proof {
            assert(prefix.drop_last() =~= fields@.take(i as int));
            assert(prefix.last() == fields@[i as int]);
        }
        match find_arg(args, &f.name) {
            None => {
                proof {
                    assert(!exists|j: int| first_key_at(args@, f.name@, j));
                }
                if f.required {
                    let e = ValidationError {
                        field: f.name.clone(),
                        expected: Some(f.ty),
                        got: ValueKind::Missing,
                    };
                    proof {
                        lemma_fields_error_kept(fields@, args@, i + 1, fields@.len() as int);
                        assert(fields@.take(fields@.len() as int) =~= fields@);
                    }
                    return Err(e);
                }
                typed.push(None);
            },
            Some(j) => {
                proof {
                    let c = choose|c: int| first_key_at(args@, f.name@, c);
                    lemma_first_key_unique(args@, f.name@, j as int, c);
                }
                let v = &args[j].1;
                let got = v.kind();
                if got != f.ty.accepted_kind() {
                    let e = ValidationError { field: f.name.clone(), expected: Some(f.ty), got };
                    proof {
                        lemma_fields_error_kept(fields@, args@, i + 1, fields@.len() as int);
                        assert(fields@.take(fields@.len() as int) =~= fields@);
                    }
                    return Err(e);
                }
                typed.push(Some(v.duplicate()));
            },
        }
        i = i + 1;
    }
    proof {
        assert(fields@.take(fields@.len() as int) =~= fields@);
    }
    if schema.strict {
        let mut a: usize = 0;
        while a < args.len()
            invariant
                0 <= a <= args@.len(),
                fields == schema.fields,
                schema.strict,
                first_unknown(fields@, args@.take(a as int)) is None,
                check_fields(fields@, args@) == Ok::<Seq<Option<Value>>, ValidationError>(typed@),
            decreases args.len() - a,
        {
            let ghost prefix = args@.take(a + 1);
            proof {
                assert(prefix.drop_last() =~= args@.take(a as int));
                assert(prefix.last() == args@[a as int]);
            }
            if !declared(fields, &args[a].0) {
                let e = ValidationError {
                    field: args[a].0.clone(),
                    expected: None,
                    got: args[a].1.kind(),
                };
                proof {
                    assert(first_unknown(fields@, prefix) == Some(e));
                    lemma_unknown_kept(fields@, args@, a + 1, args@.len() as int);
                    assert(args@.take(args@.len() as int) =~= args@);
                }
                return Err(e);
            }
            a = a + 1;
        }
        proof {
            assert(args@.take(args@.len() as int) =~= args@);
        }
    }
    Ok(typed)
}

} // verus!
