//! Invocation argument payloads and the schemas they are checked against.
//!
//! Arguments cross the UI boundary as a flat record of named fields. A
//! command declares a schema (which fields must be present, and with which
//! type); the bridge rejects a payload that does not match before any
//! capability function runs.

use vstd::prelude::*;

verus! {

/// The type of a single argument value in an invocation payload.
#[derive(Clone, Copy, PartialEq, Eq, Structural, Debug)]
pub enum ArgType {
    Str,
    Int,
    Bool,
}

/// One argument value carried in an invocation payload.
#[derive(Clone, Debug)]
pub enum ArgValue {
    Str(String),
    Int(i64),
    Bool(bool),
}

/// A named argument in an invocation payload.
#[derive(Clone, Debug)]
pub struct ArgField {
    pub name: String,
    pub value: ArgValue,
}

/// The serialized arguments of one invocation: a flat record of named fields.
#[derive(Clone, Debug)]
pub struct RawArgs {
    pub fields: Vec<ArgField>,
}

/// One field a schema requires: a name and the type its value must carry.
#[derive(Clone, Debug)]
pub struct SchemaField {
    pub name: String,
    pub kind: ArgType,
}

/// The argument schema of a command: the fields a payload must provide.
/// Fields not named by the schema are ignored, as a schema-agnostic caller
/// may send more than a command reads.
#[derive(Clone, Debug)]
pub struct Schema {
    pub fields: Vec<SchemaField>,
}

/// The type an argument value carries.
pub open spec fn type_of(v: ArgValue) -> ArgType {
    match v {
        ArgValue::Str(_) => ArgType::Str,
        ArgValue::Int(_) => ArgType::Int,
        ArgValue::Bool(_) => ArgType::Bool,
    }
}

/// The value of the first field named `name`, if any.
pub open spec fn lookup_spec(fields: Seq<ArgField>, name: Seq<char>) -> Option<ArgValue>
    decreases fields.len(),
{
    if fields.len() == 0 {
        None
    } else if fields[0].name@ == name {
        Some(fields[0].value)
    } else {
        lookup_spec(fields.drop_first(), name)
    }
}

/// The payload provides the field `f` asks for, with the type it asks for.
pub open spec fn field_matches(args: Seq<ArgField>, f: SchemaField) -> bool {
    match lookup_spec(args, f.name@) {
        Some(v) => type_of(v) == f.kind,
        None => false,
    }
}

/// The payload provides every field the schema asks for.
pub open spec fn matches_schema_spec(args: Seq<ArgField>, schema: Seq<SchemaField>) -> bool {
    forall|i: int| 0 <= i < schema.len() ==> field_matches(args, #[trigger] schema[i])
}

impl ArgValue {
    /// The type this value carries.
    pub fn value_type(&self) -> (t: ArgType)
        ensures
            t == type_of(*self),
    {
        match self {
            ArgValue::Str(_) => ArgType::Str,
            ArgValue::Int(_) => ArgType::Int,
            ArgValue::Bool(_) => ArgType::Bool,
        }
    }
}

impl RawArgs {
    /// The value of the first field named `name`, if any.
    pub fn lookup(&self, name: &str) -> (r: Option<&ArgValue>)
        ensures
            match r {
                Some(v) => lookup_spec(self.fields@, name@) == Some(*v),
                None => lookup_spec(self.fields@, name@) is None,
            },
    {
        let key: String = name.to_owned();
        let n = self.fields.len();
        proof {
            assert(self.fields@.subrange(0, n as int) =~= self.fields@);
        }
        let mut i: usize = 0;
        while i < n
            invariant
                n == self.fields.len(),
                i <= n,
                key@ == name@,
                lookup_spec(self.fields@, name@) == lookup_spec(
                    self.fields@.subrange(i as int, n as int),
                    name@,
                ),
            decreases n - i,
        {
            proof {
                assert(self.fields@.subrange(i as int, n as int)[0] == self.fields@[i as int]);
            }
            if self.fields[i].name == key {
                return Some(&self.fields[i].value);
            }
            proof {
                assert(self.fields@.subrange(i as int, n as int).drop_first() =~= self.fields@
                    .subrange(i as int + 1, n as int));
            }
            i += 1;
        }
        proof {
            assert(self.fields@.subrange(n as int, n as int).len() == 0);
        }
        None
    }

    /// Whether this payload matches `schema`.
    pub fn matches_schema(&self, schema: &Schema) -> (r: bool)
        ensures
            r == matches_schema_spec(self.fields@, schema.fields@),
    {
        let n = schema.fields.len();
        let mut i: usize = 0;
        while i < n
            invariant
                n == schema.fields.len(),
                i <= n,
                forall|j: int| 0 <= j < i ==> field_matches(self.fields@, #[trigger] schema.fields@[j]),
            decreases n - i,
        {
            let f = &schema.fields[i];
            match self.lookup(f.name.as_str()) {
                Some(v) => {
                    if v.value_type() != f.kind {
                        proof {
                            assert(!field_matches(self.fields@, schema.fields@[i as int]));
                        }
                        return false;
                    }
                },
                None => {
                    proof {
                        assert(!field_matches(self.fields@, schema.fields@[i as int]));
                    }
                    return false;
                },
            }
            i += 1;
        }
        true
    }
}

} // verus!
