//! The declarative schema: one node per desired validator, consumed once at
//! build time.  The required `schema_type` discriminator picks the kind;
//! the remaining fields are type-specific options.
use vstd::prelude::*;

verus! {

/// One schema node.  `name` reserves a recursion slot for this node;
/// `schema_ref` points a recursive-ref node at such a slot.
#[derive(Debug)]
pub struct Schema {
    pub schema_type: String,
    pub strict: Option<bool>,
    pub multiple_of: Option<i64>,
    pub le: Option<i64>,
    pub lt: Option<i64>,
    pub ge: Option<i64>,
    pub gt: Option<i64>,
    pub items: Option<Box<Schema>>,
    pub min_items: Option<u64>,
    pub max_items: Option<u64>,
    pub name: Option<String>,
    pub schema_ref: Option<String>,
}

pub struct SchemaView {
    pub schema_type: Seq<char>,
    pub strict: Option<bool>,
    pub multiple_of: Option<i64>,
    pub le: Option<i64>,
    pub lt: Option<i64>,
    pub ge: Option<i64>,
    pub gt: Option<i64>,
    pub items: Option<Box<SchemaView>>,
    pub min_items: Option<u64>,
    pub max_items: Option<u64>,
    pub name: Option<Seq<char>>,
    pub schema_ref: Option<Seq<char>>,
}

pub open spec fn schema_view(s: Schema) -> SchemaView
    decreases s,
{
    SchemaView {
        schema_type: s.schema_type@,
        strict: s.strict,
        multiple_of: s.multiple_of,
        le: s.le,
        lt: s.lt,
        ge: s.ge,
        gt: s.gt,
        items: match s.items {
            Some(b) => Some(Box::new(schema_view(*b))),
            None => None,
        },
        min_items: s.min_items,
        max_items: s.max_items,
        name: match s.name {
            Some(n) => Some(n@),
            None => None,
        },
        schema_ref: match s.schema_ref {
            Some(n) => Some(n@),
            None => None,
        },
    }
}

impl View for Schema {
    type V = SchemaView;

    open spec fn view(&self) -> SchemaView {
        schema_view(*self)
    }
}

impl Schema {
    /// A bare node of the given type, with no options set.
    pub fn of_type(schema_type: &str) -> (r: Schema)
        ensures
            r@.schema_type == schema_type@,
            r@.strict is None,
            r@.multiple_of is None,
            r@.le is None,
            r@.lt is None,
            r@.ge is None,
            r@.gt is None,
            r@.items is None,
            r@.min_items is None,
            r@.max_items is None,
            r@.name is None,
            r@.schema_ref is None,
    {
        Schema {
            schema_type: String::from_str(schema_type),
            strict: None,
            multiple_of: None,
            le: None,
            lt: None,
            ge: None,
            gt: None,
            items: None,
            min_items: None,
            max_items: None,
            name: None,
            schema_ref: None,
        }
    }
}

/// Build-time configuration shared by every node of one build.
#[derive(Debug, Clone, Copy)]
pub struct Config {
    pub strict: Option<bool>,
}

/// The effective strict flag of one node: its own override, else the
/// config's, else false.
pub open spec fn spec_is_strict(s: SchemaView, c: Option<Config>) -> bool {
    match s.strict {
        Some(b) => b,
        None => match c {
            Some(cfg) => match cfg.strict {
                Some(b) => b,
                None => false,
            },
            None => false,
        },
    }
}

pub fn is_strict(schema: &Schema, config: Option<&Config>) -> (r: bool)
    ensures
        r == spec_is_strict(schema@, spec_config(config)),
{
    match schema.strict {
        Some(b) => b,
        None => match config {
            Some(cfg) => match cfg.strict {
                Some(b) => b,
                None => false,
            },
            None => false,
        },
    }
}

/// The value of an optional borrowed config.
pub open spec fn spec_config(c: Option<&Config>) -> Option<Config> {
    match c {
        Some(cfg) => Some(*cfg),
        None => None,
    }
}

} // verus!
