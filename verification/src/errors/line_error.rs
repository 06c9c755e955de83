//! A `ValLineError` is a single violation found during validation; a whole
//! failed call reports an ordered collection of them.
use vstd::prelude::*;

use crate::errors::kinds::ErrorKind;
use crate::errors::location::{location_view, LocItem, LocItemView, Location};
use crate::input::input_json::{JsonInput, JsonView};
use crate::strutil::{idec_str, spec_replace};

verus! {

/// One named, typed parameter for message rendering.
#[derive(Debug, Clone)]
pub enum ContextValue {
    S(String),
    I(i64),
}

pub enum ContextValueView {
    S(Seq<char>),
    I(int),
}

impl View for ContextValue {
    type V = ContextValueView;

    open spec fn view(&self) -> ContextValueView {
        match self {
            ContextValue::S(s) => ContextValueView::S(s@),
            ContextValue::I(i) => ContextValueView::I(*i as int),
        }
    }
}

/// The text a context value substitutes into a message template.
pub open spec fn spec_context_value_text(v: ContextValueView) -> Seq<char> {
    match v {
        ContextValueView::S(s) => s,
        ContextValueView::I(i) => idec_str(i),
    }
}

impl ContextValue {
    pub fn to_text(&self) -> (r: String)
        ensures
            r@ == spec_context_value_text(self@),
    {
        match self {
            ContextValue::S(s) => s.clone(),
            ContextValue::I(i) => crate::strutil::i64_to_string(*i),
        }
    }
}

/// An ordered name-to-value mapping used to render `{name}` placeholders in
/// a message template.
#[derive(Debug, Clone)]
pub struct Context(Vec<(String, ContextValue)>);

/// `{name}`: the placeholder text a context key replaces.
pub open spec fn spec_brace(k: Seq<char>) -> Seq<char> {
    seq!['{'] + k + seq!['}']
}

/// Template rendering: each context pair in order replaces every occurrence
/// of its braced key with its value's text; unmatched placeholders stay.
pub open spec fn spec_render(pairs: Seq<(Seq<char>, ContextValueView)>, t: Seq<char>) -> Seq<char>
    decreases pairs.len(),
{
    if pairs.len() == 0 {
        t
    } else {
        spec_render(
            pairs.drop_first(),
            spec_replace(t, spec_brace(pairs[0].0), spec_context_value_text(pairs[0].1)),
        )
    }
}

/// The display text of a context: `{k: v, ...}` in insertion order.
pub open spec fn spec_context_entries_text(pairs: Seq<(Seq<char>, ContextValueView)>) -> Seq<char>
    decreases pairs.len(),
{
    if pairs.len() == 0 {
        Seq::empty()
    } else if pairs.len() == 1 {
        pairs[0].0 + ": "@ + spec_context_value_text(pairs[0].1)
    } else {
        spec_context_entries_text(pairs.drop_last()) + ", "@ + pairs.last().0 + ": "@
            + spec_context_value_text(pairs.last().1)
    }
}

impl View for Context {
    type V = Seq<(Seq<char>, ContextValueView)>;

    closed spec fn view(&self) -> Seq<(Seq<char>, ContextValueView)> {
        self.0@.map_values(|p: (String, ContextValue)| (p.0@, p.1@))
    }
}

impl Context {
    pub fn new(raw: Vec<(String, ContextValue)>) -> (r: Self)
        ensures
            r@ == raw@.map_values(|p: (String, ContextValue)| (p.0@, p.1@)),
    {
        Context(raw)
    }

    pub fn is_empty(&self) -> (r: bool)
        ensures
            r == (self@.len() == 0),
    {
        self.0.len() == 0
    }

    /// Substitutes every context pair into `template`, left to right.
    pub fn render(&self, template: String) -> (r: String)
        ensures
            r@ == spec_render(self@, template@),
    {
        let ghost t0 = template@;
        let mut rendered = template;
        let mut i: usize = 0;
        proof {
            assert(self@.skip(0) =~= self@);
        }
        while i < self.0.len()
            invariant
                0 <= i <= self.0.len(),
                self@.len() == self.0.len(),
                spec_render(self@, t0) == spec_render(self@.skip(i as int), rendered@),
            decreases self.0.len() - i,
        {
            let key = &self.0[i].0;
            let pattern = String::from_str("{").concat(key.as_str()).concat("}");
            proof {
                reveal_strlit("{");
                reveal_strlit("}");
                assert(pattern@ =~= spec_brace(key@));
                assert(self@.skip(i as int).drop_first() =~= self@.skip(i + 1));
                assert(self@.skip(i as int)[0] == self@[i as int]);
            }
            let value_text = self.0[i].1.to_text();
            rendered = crate::strutil::replace_all(rendered.as_str(), pattern.as_str(),
                value_text.as_str());
            i += 1;
        }
        proof {
            assert(self@.skip(self@.len() as int) =~= Seq::<(Seq<char>, ContextValueView)>::empty());
        }
        rendered
    }

    /// The display text of the whole context, `{k: v, ...}`.
    pub fn to_text(&self) -> (r: String)
        ensures
            r@ == seq!['{'] + spec_context_entries_text(self@) + seq!['}'],
    {
        let mut entries = String::new();
        let mut i: usize = 0;
        while i < self.0.len()
            invariant
                0 <= i <= self.0.len(),
                self@.len() == self.0.len(),
                entries@ == spec_context_entries_text(self@.take(i as int)),
            decreases self.0.len() - i,
        {
            if i > 0 {
                entries.append(", ");
            }
            entries.append(self.0[i].0.as_str());
            entries.append(": ");
            let value_text = self.0[i].1.to_text();
            entries.append(value_text.as_str());
            i += 1;
            proof {
                reveal_strlit(", ");
                reveal_strlit(": ");
                let t = self@.take(i as int);
                assert(t.drop_last() =~= self@.take(i - 1));
                assert(t.last() == self@[i - 1]);
                assert(entries@ =~= spec_context_entries_text(t));
            }
        }
        proof {
            assert(self@.take(self@.len() as int) =~= self@);
            reveal_strlit("{");
            reveal_strlit("}");
        }
        let r = String::from_str("{").concat(entries.as_str()).concat("}");
        proof {
            assert(r@ =~= seq!['{'] + spec_context_entries_text(self@) + seq!['}']);
        }
        r
    }
}

/// A snapshot of the offending input value, carried inside a line error.
#[derive(Debug)]
pub enum InputValue {
    Null,
    Json(JsonInput),
    Str(String),
    Host(usize),
}

pub enum InputValueView {
    Null,
    Json(JsonView),
    Str(Seq<char>),
    Host(int),
}

impl Default for InputValue {
    fn default() -> (r: Self)
        ensures
            r@ == InputValueView::Null,
    {
        InputValue::Null
    }
}

impl View for InputValue {
    type V = InputValueView;

    open spec fn view(&self) -> InputValueView {
        match self {
            InputValue::Null => InputValueView::Null,
            InputValue::Json(j) => InputValueView::Json(j@),
            InputValue::Str(s) => InputValueView::Str(s@),
            InputValue::Host(id) => InputValueView::Host(*id as int),
        }
    }
}

/// A single violation: its kind, the path to the offending value, an
/// optional message override, a snapshot of the value, and the rendering
/// context.
#[derive(Debug)]
pub struct ValLineError {
    pub kind: ErrorKind,
    pub location: Location,
    pub message: Option<String>,
    pub input_value: InputValue,
    pub context: Context,
}

#[verifier::ext_equal]
pub struct ValLineErrorView {
    pub kind: ErrorKind,
    pub location: Seq<LocItemView>,
    pub message: Option<Seq<char>>,
    pub input_value: InputValueView,
    pub context: Seq<(Seq<char>, ContextValueView)>,
}

impl View for ValLineError {
    type V = ValLineErrorView;

    open spec fn view(&self) -> ValLineErrorView {
        ValLineErrorView {
            kind: self.kind,
            location: location_view(self.location@),
            message: match &self.message {
                Some(m) => Some(m@),
                None => None,
            },
            input_value: self.input_value@,
            context: self.context@,
        }
    }
}

/// The error a leaf failure produces: empty location, no message override,
/// and the kind's own default context.
pub open spec fn leaf_err(kind: ErrorKind, ev: InputValueView) -> ValLineErrorView {
    ValLineErrorView {
        kind: kind,
        location: Seq::empty(),
        message: None,
        input_value: ev,
        context: kind.spec_context(),
    }
}

/// The same error one frame further from the root: `item` is prefixed to
/// its location.
pub open spec fn spec_with_prefix(e: ValLineErrorView, item: LocItemView) -> ValLineErrorView {
    ValLineErrorView { location: seq![item] + e.location, ..e }
}

impl ValLineError {
    pub fn new(kind: ErrorKind, input_value: InputValue) -> (r: Self)
        ensures
            r@ == leaf_err(kind, input_value@),
    {
        let r = ValLineError {
            kind: kind,
            location: Vec::new(),
            message: None,
            input_value: input_value,
            context: kind.default_context(),
        };
        proof {
            assert(r@ =~= leaf_err(kind, r.input_value@));
        }
        r
    }

    /// A leaf error with an explicit context in place of the kind's default.
    pub fn new_with_context(kind: ErrorKind, input_value: InputValue, context: Context) -> (r:
        Self)
        ensures
            r@ == (ValLineErrorView { context: context@, ..leaf_err(kind, input_value@) }),
    {
        let r = ValLineError {
            kind: kind,
            location: Vec::new(),
            message: None,
            input_value: input_value,
            context: context,
        };
        proof {
            assert(r@ =~= (ValLineErrorView { context: r.context@, ..leaf_err(kind, r.input_value@) }));
        }
        r
    }

    /// Prefixes one location item, as validation unwinds a nested frame.
    pub fn with_prefix_location(self, loc_item: LocItem) -> (r: Self)
        ensures
            r@ == spec_with_prefix(self@, loc_item@),
    {
        let mut e = self;
        let ghost before = e@;
        e.location.insert(0, loc_item);
        proof {
            assert(e.location@.map_values(|x: LocItem| x@) =~= seq![loc_item@]
                + before.location);
            assert(e@ =~= spec_with_prefix(before, loc_item@));
        }
        e
    }

    /// The rendered message: the override when one is set, else the kind's
    /// template, with the context substituted in.
    pub fn render_message(&self) -> (r: String)
        ensures
            r@ == spec_render(
                self@.context,
                match self@.message {
                    Some(m) => m,
                    None => self.kind.spec_template(),
                },
            ),
    {
        let template = match &self.message {
            Some(m) => m.clone(),
            None => String::from_str(self.kind.message_template()),
        };
        self.context.render(template)
    }
}

} // verus!
