//! The coerced output of a successful validation, in a representation the
//! marshaling boundary can take over.
use vstd::prelude::*;

use crate::input::input_json::{JsonInput, JsonView};

verus! {

/// A coerced output value.  A set output deduplicates by equality, in first
/// occurrence order.
#[derive(Debug)]
pub enum OutputValue {
    Null,
    Int(i64),
    SetOf(Vec<OutputValue>),
}

#[verifier::ext_equal]
pub enum OutView {
    Null,
    Int(int),
    SetOf(Seq<OutView>),
}

pub open spec fn out_view(v: OutputValue) -> OutView
    decreases v,
{
    match v {
        OutputValue::Null => OutView::Null,
        OutputValue::Int(i) => OutView::Int(i as int),
        OutputValue::SetOf(els) => OutView::SetOf(outs_view(els@)),
    }
}

pub open spec fn outs_view(s: Seq<OutputValue>) -> Seq<OutView>
    decreases s,
{
    if s.len() == 0 {
        Seq::empty()
    } else {
        outs_view(s.drop_last()).push(out_view(s.last()))
    }
}

impl View for OutputValue {
    type V = OutView;

    open spec fn view(&self) -> OutView {
        out_view(*self)
    }
}

pub broadcast proof fn lemma_outs_view_index(s: Seq<OutputValue>)
    ensures
        (#[trigger] outs_view(s)).len() == s.len(),
        forall|i: int| 0 <= i < s.len() ==> outs_view(s)[i] == s[i]@,
    decreases s.len(),
{
    if s.len() > 0 {
        lemma_outs_view_index(s.drop_last());
        assert forall|i: int| 0 <= i < s.len() implies outs_view(s)[i] == s[i]@ by {
            if i < s.len() - 1 {
                assert(s.drop_last()[i] == s[i]);
            }
        }
    }
}

/// The document values a sequence of canonical outputs reads back as.
pub open spec fn spec_outs_as_json(els: Seq<OutView>) -> Seq<JsonView>
    decreases els,
{
    if els.len() == 0 {
        Seq::empty()
    } else {
        spec_outs_as_json(els.drop_last()).push(OutputValue::spec_as_json(els.last()))
    }
}

pub broadcast proof fn lemma_outs_as_json_index(els: Seq<OutView>)
    ensures
        (#[trigger] spec_outs_as_json(els)).len() == els.len(),
        forall|i: int|
            0 <= i < els.len() ==> spec_outs_as_json(els)[i] == OutputValue::spec_as_json(els[i]),
    decreases els.len(),
{
    if els.len() > 0 {
        lemma_outs_as_json_index(els.drop_last());
        assert forall|i: int|
            0 <= i < els.len() implies spec_outs_as_json(els)[i] == OutputValue::spec_as_json(
            els[i],
        ) by {
            if i < els.len() - 1 {
                assert(els.drop_last()[i] == els[i]);
            }
        }
    }
}

impl OutputValue {
    /// Deep structural equality: decides equality of the views.
    pub fn value_eq(&self, other: &OutputValue) -> (r: bool)
        ensures
            r == (self@ == other@),
        decreases *self,
    {
        match (self, other) {
            (OutputValue::Null, OutputValue::Null) => true,
            (OutputValue::Int(a), OutputValue::Int(b)) => a == b,
            (OutputValue::SetOf(xs), OutputValue::SetOf(ys)) => {
                if xs.len() != ys.len() {
                    proof {
                        lemma_outs_view_index(xs@);
                        lemma_outs_view_index(ys@);
                    }
                    false
                } else {
                    let mut i: usize = 0;
                    let mut all_eq = true;
                    while i < xs.len()
                        invariant
                            0 <= i <= xs.len(),
                            xs@.len() == ys@.len(),
                            *self == OutputValue::SetOf(*xs),
                            all_eq == (forall|j: int|
                                0 <= j < i ==> (#[trigger] xs@[j])@ == ys@[j]@),
                        decreases xs.len() - i,
                    {
                        proof {
                            broadcast use vstd::std_specs::vec::group_vec_axioms;
                            assert(decreases_to!(*self => self->SetOf_0));
                            assert(decreases_to!(*xs => xs@));
                            assert(decreases_to!(xs@ => xs@[i as int]));
                        }
                        if !xs[i].value_eq(&ys[i]) {
                            all_eq = false;
                        }
                        i += 1;
                    }
                    proof {
                        lemma_outs_view_index(xs@);
                        lemma_outs_view_index(ys@);
                        if all_eq {
                            assert(outs_view(xs@) =~= outs_view(ys@));
                        } else {
                            assert(exists|j: int|
                                0 <= j < xs@.len() && (#[trigger] xs@[j])@ != ys@[j]@);
                            let j = choose|j: int|
                                0 <= j < xs@.len() && (#[trigger] xs@[j])@ != ys@[j]@;
                            assert(outs_view(xs@)[j] != outs_view(ys@)[j]);
                        }
                    }
                    all_eq
                }
            },
            _ => {
                proof {
                    assert(self@ != other@);
                }
                false
            },
        }
    }

    /// The document value a canonical output reads back as: null stays
    /// null, an int stays an int, and a set becomes an array.
    pub open spec fn spec_as_json(v: OutView) -> JsonView
        decreases v,
    {
        match v {
            OutView::Null => JsonView::Null,
            OutView::Int(i) => JsonView::Int(i),
            OutView::SetOf(els) => JsonView::Array(spec_outs_as_json(els)),
        }
    }

    /// Converts this output into the document representation, for feeding a
    /// result back through a validator.
    pub fn as_json_input(&self) -> (r: JsonInput)
        ensures
            r@ == OutputValue::spec_as_json(self@),
        decreases *self,
    {
        match self {
            OutputValue::Null => JsonInput::Null,
            OutputValue::Int(i) => JsonInput::Int(*i),
            OutputValue::SetOf(els) => {
                let mut out: Vec<JsonInput> = Vec::new();
                let mut i: usize = 0;
                while i < els.len()
                    invariant
                        0 <= i <= els.len(),
                        *self == OutputValue::SetOf(*els),
                        out@.len() == i,
                        forall|j: int|
                            0 <= j < i ==> (#[trigger] out@[j])@ == OutputValue::spec_as_json(
                                els@[j]@,
                            ),
                    decreases els.len() - i,
                {
                    proof {
                        broadcast use vstd::std_specs::vec::group_vec_axioms;
                        assert(decreases_to!(*self => self->SetOf_0));
                        assert(decreases_to!(*els => els@));
                        assert(decreases_to!(els@ => els@[i as int]));
                    }
                    out.push(els[i].as_json_input());
                    i += 1;
                }
                proof {
                    crate::input::input_json::lemma_jsons_view_index(out@);
                    lemma_outs_view_index(els@);
                    lemma_outs_as_json_index(outs_view(els@));
                    assert(crate::input::input_json::jsons_view(out@) =~= spec_outs_as_json(
                        outs_view(els@),
                    ));
                }
                JsonInput::Array(out)
            },
        }
    }
}

} // verus!
