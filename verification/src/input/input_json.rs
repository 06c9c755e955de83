//! The parsed-document value tree: a minimal null / bool / int / float /
//! string / array / object representation of an already-parsed document.
//!
//! A float carries exactly what the engine reads of one: its decimal
//! rendering and, when it is exactly a whole number, that integer value.
//! The boundary layer that owns the native float produces this form.
use vstd::prelude::*;

use crate::errors::kinds::ErrorKind;
use crate::errors::line_error::{InputValue, InputValueView, ValLineError};
use crate::errors::location::{LocItem, LocItemView};

verus! {

/// What the engine reads of a document float: its decimal rendering and
/// its exact integer value when the float is a whole number.
#[derive(Debug, Clone)]
pub struct FloatRepr {
    pub text: String,
    pub whole: Option<i64>,
}

pub struct FloatReprView {
    pub text: Seq<char>,
    pub whole: Option<i64>,
}

impl View for FloatRepr {
    type V = FloatReprView;

    open spec fn view(&self) -> FloatReprView {
        FloatReprView { text: self.text@, whole: self.whole }
    }
}

/// A parsed-document input value.
#[derive(Debug)]
pub enum JsonInput {
    Null,
    Bool(bool),
    Int(i64),
    Float(FloatRepr),
    Str(String),
    Array(Vec<JsonInput>),
    Object(Vec<(String, JsonInput)>),
}

#[verifier::ext_equal]
pub enum JsonView {
    Null,
    Bool(bool),
    Int(int),
    Float(FloatReprView),
    Str(Seq<char>),
    Array(Seq<JsonView>),
    Object(Seq<(Seq<char>, JsonView)>),
}

pub open spec fn json_view(v: JsonInput) -> JsonView
    decreases v,
{
    match v {
        JsonInput::Null => JsonView::Null,
        JsonInput::Bool(b) => JsonView::Bool(b),
        JsonInput::Int(i) => JsonView::Int(i as int),
        JsonInput::Float(f) => JsonView::Float(f@),
        JsonInput::Str(s) => JsonView::Str(s@),
        JsonInput::Array(a) => JsonView::Array(jsons_view(a@)),
        JsonInput::Object(o) => JsonView::Object(json_pairs_view(o@)),
    }
}

pub open spec fn jsons_view(s: Seq<JsonInput>) -> Seq<JsonView>
    decreases s,
{
    if s.len() == 0 {
        Seq::empty()
    } else {
        jsons_view(s.drop_last()).push(json_view(s.last()))
    }
}

pub open spec fn json_pairs_view(s: Seq<(String, JsonInput)>) -> Seq<(Seq<char>, JsonView)>
    decreases s,
{
    if s.len() == 0 {
        Seq::empty()
    } else {
        json_pairs_view(s.drop_last()).push((s.last().0@, json_view(s.last().1)))
    }
}

impl View for JsonInput {
    type V = JsonView;

    open spec fn view(&self) -> JsonView {
        json_view(*self)
    }
}

pub broadcast proof fn lemma_jsons_view_index(s: Seq<JsonInput>)
    ensures
        (#[trigger] jsons_view(s)).len() == s.len(),
        forall|i: int| 0 <= i < s.len() ==> jsons_view(s)[i] == s[i]@,
    decreases s.len(),
{
    if s.len() > 0 {
        lemma_jsons_view_index(s.drop_last());
        assert forall|i: int| 0 <= i < s.len() implies jsons_view(s)[i] == s[i]@ by {
            if i < s.len() - 1 {
                assert(s.drop_last()[i] == s[i]);
            }
        }
    }
}


pub broadcast proof fn lemma_json_pairs_view_index(s: Seq<(String, JsonInput)>)
    ensures
        (#[trigger] json_pairs_view(s)).len() == s.len(),
        forall|i: int|
            0 <= i < s.len() ==> json_pairs_view(s)[i] == (s[i].0@, s[i].1@),
    decreases s.len(),
{
    if s.len() > 0 {
        lemma_json_pairs_view_index(s.drop_last());
        assert forall|i: int|
            0 <= i < s.len() implies json_pairs_view(s)[i] == (s[i].0@, s[i].1@) by {
            if i < s.len() - 1 {
                assert(s.drop_last()[i] == s[i]);
            }
        }
    }
}

impl FloatRepr {
    pub fn deep_clone(&self) -> (r: FloatRepr)
        ensures
            r@ == self@,
    {
        FloatRepr { text: self.text.clone(), whole: self.whole }
    }
}

impl JsonInput {
    /// A structural copy: the copy's view equals this value's view.
    pub fn deep_clone(&self) -> (r: JsonInput)
        ensures
            r@ == self@,
        decreases self,
    {
        match self {
            JsonInput::Null => JsonInput::Null,
            JsonInput::Bool(b) => JsonInput::Bool(*b),
            JsonInput::Int(i) => JsonInput::Int(*i),
            JsonInput::Float(f) => JsonInput::Float(f.deep_clone()),
            JsonInput::Str(s) => JsonInput::Str(s.clone()),
            JsonInput::Array(v) => {
                let mut out: Vec<JsonInput> = Vec::new();
                let mut i: usize = 0;
                while i < v.len()
                    invariant
                        0 <= i <= v.len(),
                        *self == JsonInput::Array(*v),
                        out@.len() == i,
                        forall|j: int| 0 <= j < i ==> (#[trigger] out@[j])@ == v@[j]@,
                    decreases v.len() - i,
                {
                    proof {
                        broadcast use vstd::std_specs::vec::group_vec_axioms;
                        assert(*self == JsonInput::Array(*v));
                        assert(decreases_to!(*self => self->Array_0));
                        assert(decreases_to!(*v => v@));
                        assert(decreases_to!(v@ => v@[i as int]));
                        assert(decreases_to!(*self => v@[i as int]));
                    }
                    out.push(v[i].deep_clone());
                    i += 1;
                }
                proof {
                    lemma_jsons_view_index(out@);
                    lemma_jsons_view_index(v@);
                    assert(jsons_view(out@) =~= jsons_view(v@));
                }
                JsonInput::Array(out)
            },
            JsonInput::Object(o) => {
                let mut out: Vec<(String, JsonInput)> = Vec::new();
                let mut i: usize = 0;
                while i < o.len()
                    invariant
                        0 <= i <= o.len(),
                        *self == JsonInput::Object(*o),
                        out@.len() == i,
                        forall|j: int|
                            0 <= j < i ==> (#[trigger] out@[j]).0@ == o@[j].0@ && out@[j].1@
                                == o@[j].1@,
                    decreases o.len() - i,
                {
                    proof {
                        broadcast use vstd::std_specs::vec::group_vec_axioms;
                        assert(*self == JsonInput::Object(*o));
                        assert(decreases_to!(*self => self->Object_0));
                        assert(decreases_to!(*o => o@));
                        assert(decreases_to!(o@ => o@[i as int]));
                        assert(decreases_to!(o@[i as int] => o@[i as int].1));
                        assert(decreases_to!(*self => o@[i as int].1));
                    }
                    out.push((o[i].0.clone(), o[i].1.deep_clone()));
                    i += 1;
                }
                proof {
                    lemma_json_pairs_view_index(out@);
                    lemma_json_pairs_view_index(o@);
                    assert(json_pairs_view(out@) =~= json_pairs_view(o@));
                }
                JsonInput::Object(out)
            },
        }
    }
}

/// One document value under validation: a borrowed node of the tree.
#[derive(Clone, Copy)]
pub struct JsonRef<'a> {
    pub v: &'a JsonInput,
}

impl<'a> JsonRef<'a> {
    /// The values of the elements of an array node.
    pub open spec fn element_refs(self, elems: Vec<JsonInput>) -> Seq<JsonRef<'a>> {
        Seq::new(elems@.len(), |i: int| JsonRef { v: &elems[i] })
    }
}

impl<'a> crate::input::input_abstract::Input for JsonRef<'a> {
    /// A document value is always well formed.
    open spec fn wf(&self) -> bool {
        true
    }

    /// Document values have no stable reference identity.
    open spec fn sp_identity(&self) -> Option<usize> {
        None
    }

    open spec fn sp_is_none(&self) -> bool {
        *self.v matches JsonInput::Null
    }

    open spec fn sp_loc_item(&self) -> LocItemView {
        match *self.v {
            JsonInput::Str(s) => LocItemView::Key(s@),
            JsonInput::Int(i) => if i >= 0 {
                LocItemView::Index(i as int)
            } else {
                LocItemView::Key(crate::strutil::idec_str(i as int))
            },
            _ => LocItemView::Key(Seq::empty()),
        }
    }

    open spec fn sp_error_value(&self) -> InputValueView {
        InputValueView::Json(self.v@)
    }

    /// Strict: string only.  Lax: also the decimal rendering of an int or a
    /// float.
    open spec fn sp_str(&self, strict: bool) -> Result<Seq<char>, ErrorKind> {
        match *self.v {
            JsonInput::Str(s) => Ok(s@),
            JsonInput::Int(i) => if strict {
                Err(ErrorKind::StrType)
            } else {
                Ok(crate::strutil::idec_str(i as int))
            },
            JsonInput::Float(f) => if strict {
                Err(ErrorKind::StrType)
            } else {
                Ok(f@.text)
            },
            _ => Err(ErrorKind::StrType),
        }
    }

    /// Strict: bool only.  Lax: also the fixed truthy/falsy strings and the
    /// integers 0 and 1.
    open spec fn sp_bool(&self, strict: bool) -> Result<bool, ErrorKind> {
        match *self.v {
            JsonInput::Bool(b) => Ok(b),
            JsonInput::Str(s) => if strict {
                Err(ErrorKind::BoolType)
            } else {
                match crate::input::shared::spec_str_as_bool(s@) {
                    Some(b) => Ok(b),
                    None => Err(ErrorKind::BoolParsing),
                }
            },
            JsonInput::Int(i) => if strict {
                Err(ErrorKind::BoolType)
            } else {
                match crate::input::shared::spec_int_as_bool(i) {
                    Some(b) => Ok(b),
                    None => Err(ErrorKind::BoolParsing),
                }
            },
            _ => Err(ErrorKind::BoolType),
        }
    }

    /// Strict: int only.  Lax: also bool 0/1, an exactly-whole float, and a
    /// decimal string.
    open spec fn sp_int(&self, strict: bool) -> Result<i64, ErrorKind> {
        match *self.v {
            JsonInput::Int(i) => Ok(i),
            JsonInput::Bool(b) => if strict {
                Err(ErrorKind::IntType)
            } else if b {
                Ok(1)
            } else {
                Ok(0)
            },
            JsonInput::Float(f) => if strict {
                Err(ErrorKind::IntType)
            } else {
                match f.whole {
                    Some(i) => Ok(i),
                    None => Err(ErrorKind::IntFromFloat),
                }
            },
            JsonInput::Str(s) => if strict {
                Err(ErrorKind::IntType)
            } else {
                match crate::strutil::spec_str_to_i64(s@) {
                    Some(i) => Ok(i),
                    None => Err(ErrorKind::IntParsing),
                }
            },
            _ => Err(ErrorKind::IntType),
        }
    }

    open spec fn sp_list(&self, strict: bool) -> Result<Seq<JsonRef<'a>>, ErrorKind> {
        match *self.v {
            JsonInput::Array(elems) => Ok(self.element_refs(elems)),
            _ => Err(ErrorKind::ListType),
        }
    }

    /// An array is accepted as a set source even in strict mode, since a
    /// document has no distinct set representation.
    open spec fn sp_set(&self, strict: bool) -> Result<Seq<JsonRef<'a>>, ErrorKind> {
        match *self.v {
            JsonInput::Array(elems) => Ok(self.element_refs(elems)),
            _ => Err(ErrorKind::SetType),
        }
    }

    fn is_none(&self) -> (r: bool) {
        matches!(self.v, JsonInput::Null)
    }

    fn identity(&self) -> (r: Option<usize>) {
        None
    }

    fn as_loc_item(&self) -> (r: LocItem) {
        match self.v {
            JsonInput::Str(s) => LocItem::Key(s.clone()),
            JsonInput::Int(i) => {
                if *i >= 0 {
                    LocItem::Index(*i as u64)
                } else {
                    LocItem::Key(crate::strutil::i64_to_string(*i))
                }
            },
            _ => LocItem::Key(String::new()),
        }
    }

    fn as_error_value(&self) -> (r: InputValue) {
        InputValue::Json(self.v.deep_clone())
    }

    fn strict_str(&self) -> (r: Result<String, ValLineError>) {
        match self.v {
            JsonInput::Str(s) => Ok(s.clone()),
            _ => Err(ValLineError::new(ErrorKind::StrType, self.as_error_value())),
        }
    }

    fn lax_str(&self) -> (r: Result<String, ValLineError>) {
        match self.v {
            JsonInput::Str(s) => Ok(s.clone()),
            JsonInput::Int(i) => Ok(crate::strutil::i64_to_string(*i)),
            JsonInput::Float(f) => Ok(f.text.clone()),
            _ => Err(ValLineError::new(ErrorKind::StrType, self.as_error_value())),
        }
    }

    fn strict_bool(&self) -> (r: Result<bool, ValLineError>) {
        match self.v {
            JsonInput::Bool(b) => Ok(*b),
            _ => Err(ValLineError::new(ErrorKind::BoolType, self.as_error_value())),
        }
    }

    fn lax_bool(&self) -> (r: Result<bool, ValLineError>) {
        match self.v {
            JsonInput::Bool(b) => Ok(*b),
            JsonInput::Str(s) => match crate::input::shared::str_as_bool(s.as_str()) {
                Some(b) => Ok(b),
                None => Err(ValLineError::new(ErrorKind::BoolParsing, self.as_error_value())),
            },
            JsonInput::Int(i) => match crate::input::shared::int_as_bool(*i) {
                Some(b) => Ok(b),
                None => Err(ValLineError::new(ErrorKind::BoolParsing, self.as_error_value())),
            },
            _ => Err(ValLineError::new(ErrorKind::BoolType, self.as_error_value())),
        }
    }

    fn strict_int(&self) -> (r: Result<i64, ValLineError>) {
        match self.v {
            JsonInput::Int(i) => Ok(*i),
            _ => Err(ValLineError::new(ErrorKind::IntType, self.as_error_value())),
        }
    }

    fn lax_int(&self) -> (r: Result<i64, ValLineError>) {
        match self.v {
            JsonInput::Int(i) => Ok(*i),
            JsonInput::Bool(b) => {
                if *b {
                    Ok(1)
                } else {
                    Ok(0)
                }
            },
            JsonInput::Float(f) => match crate::input::shared::float_as_int(f) {
                Some(i) => Ok(i),
                None => Err(ValLineError::new(ErrorKind::IntFromFloat, self.as_error_value())),
            },
            JsonInput::Str(s) => match crate::input::shared::str_as_int(s.as_str()) {
                Some(i) => Ok(i),
                None => Err(ValLineError::new(ErrorKind::IntParsing, self.as_error_value())),
            },
            _ => Err(ValLineError::new(ErrorKind::IntType, self.as_error_value())),
        }
    }

    fn strict_list(&self) -> (r: Result<Vec<JsonRef<'a>>, ValLineError>) {
        match self.v {
            JsonInput::Array(elems) => Ok(collect_element_refs(*self, elems)),
            _ => Err(ValLineError::new(ErrorKind::ListType, self.as_error_value())),
        }
    }

    fn lax_list(&self) -> (r: Result<Vec<JsonRef<'a>>, ValLineError>) {
        match self.v {
            JsonInput::Array(elems) => Ok(collect_element_refs(*self, elems)),
            _ => Err(ValLineError::new(ErrorKind::ListType, self.as_error_value())),
        }
    }

    fn strict_set(&self) -> (r: Result<Vec<JsonRef<'a>>, ValLineError>) {
        match self.v {
            JsonInput::Array(elems) => Ok(collect_element_refs(*self, elems)),
            _ => Err(ValLineError::new(ErrorKind::SetType, self.as_error_value())),
        }
    }

    fn lax_set(&self) -> (r: Result<Vec<JsonRef<'a>>, ValLineError>) {
        match self.v {
            JsonInput::Array(elems) => Ok(collect_element_refs(*self, elems)),
            _ => Err(ValLineError::new(ErrorKind::SetType, self.as_error_value())),
        }
    }
}

fn collect_element_refs<'a, 'b>(origin: JsonRef<'a>, elems: &'a Vec<JsonInput>) -> (r: Vec<
    JsonRef<'a>>)
    ensures
        r@ == origin.element_refs(*elems),
{
    let mut out: Vec<JsonRef<'a>> = Vec::new();
    let mut i: usize = 0;
    while i < elems.len()
        invariant
            0 <= i <= elems.len(),
            out@ =~= Seq::new(i as nat, |j: int| JsonRef { v: &elems[j] }),
        decreases elems.len() - i,
    {
        out.push(JsonRef { v: &elems[i] });
        i += 1;
    }
    proof {
        assert(out@ =~= origin.element_refs(*elems));
    }
    out
}

} // verus!
