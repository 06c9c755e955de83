//! Engine-level laws, each proved once and for all against the
//! specification functions that the executable build and validate are
//! pinned to.
use vstd::prelude::*;

use crate::errors::kinds::ErrorKind;
use crate::errors::line_error::leaf_err;
use crate::input::input_abstract::Input;
use crate::schema::Config;
use crate::input::input_json::{jsons_view, JsonInput, JsonRef};
use crate::output::{OutputValue, OutView};
use crate::validators::{
    spec_build_schema, spec_set_checks, spec_validate, spec_validate_elements, spec_validate_set,
    CombinedValidator, SchemaValidator, SetValidator, RECURSION_LIMIT,
};

verus! {

/// Build is deterministic: two compilations of the same schema under the
/// same configuration yield validators with identical validate behaviour
/// on every input, in every mode.
pub proof fn lemma_build_deterministic<I: Input>(
    sv1: SchemaValidator,
    sv2: SchemaValidator,
    s: crate::schema::SchemaView,
    c: Option<Config>,
    input: I,
    strict: bool,
)
    requires
        spec_build_schema(s, c) == Ok::<(CombinedValidator, Seq<CombinedValidator>), Seq<char>>(
            (sv1.validator, sv1.slots@),
        ),
        spec_build_schema(s, c) == Ok::<(CombinedValidator, Seq<CombinedValidator>), Seq<char>>(
            (sv2.validator, sv2.slots@),
        ),
    ensures
        spec_validate(
            sv1.validator,
            sv1.slots@,
            input,
            strict,
            Seq::<usize>::empty(),
            RECURSION_LIMIT as nat,
        ) == spec_validate(
            sv2.validator,
            sv2.slots@,
            input,
            strict,
            Seq::<usize>::empty(),
            RECURSION_LIMIT as nat,
        ),
{
}

proof fn lemma_elements_output_len<I: Input>(
    itemv: CombinedValidator,
    slots: Seq<CombinedValidator>,
    elems: Seq<I>,
    i: int,
    estrict: bool,
    guard: Seq<usize>,
    fuel: nat,
    outs: Seq<OutView>,
    errs: Seq<crate::errors::line_error::ValLineErrorView>,
)
    requires
        0 <= i <= elems.len(),
    ensures
        spec_validate_elements(itemv, slots, elems, i, estrict, guard, fuel, outs, errs).0.len()
            <= outs.len() + (elems.len() - i),
    decreases elems.len() - i,
{
    if i < elems.len() {
        match spec_validate(itemv, slots, elems[i], estrict, guard, fuel) {
            Ok(o) => {
                lemma_elements_output_len(
                    itemv,
                    slots,
                    elems,
                    i + 1,
                    estrict,
                    guard,
                    fuel,
                    if outs.contains(o) {
                        outs
                    } else {
                        outs.push(o)
                    },
                    errs,
                );
            },
            Err(es) => {
                lemma_elements_output_len(
                    itemv,
                    slots,
                    elems,
                    i + 1,
                    estrict,
                    guard,
                    fuel,
                    outs,
                    errs + crate::validators::prefix_errs(es, i),
                );
            },
        }
    }
}

/// Validating a set against a coerced source of length L yields at most L
/// output elements: duplicates collapse, so the output never outgrows the
/// source.
pub proof fn lemma_set_output_bounded<I: Input>(
    sv: SetValidator,
    slots: Seq<CombinedValidator>,
    input: I,
    coerce_strict: bool,
    estrict: bool,
    guard: Seq<usize>,
    fuel: nat,
    elems: Seq<I>,
    outs: Seq<OutView>,
)
    requires
        input.sp_set(coerce_strict) == Ok::<Seq<I>, ErrorKind>(elems),
        spec_validate_set(sv, slots, input, coerce_strict, estrict, guard, fuel) == Ok::<
            OutView,
            Seq<crate::errors::line_error::ValLineErrorView>,
        >(OutView::SetOf(outs)),
    ensures
        outs.len() <= elems.len(),
{
    lemma_elements_output_len(
        *sv.item_validator,
        slots,
        elems,
        0,
        estrict,
        guard,
        fuel,
        Seq::empty(),
        Seq::empty(),
    );
}

/// Every successfully validated output of a constrained-int validator with
/// an upper bound `le = B` is an integer no greater than B; the same holds
/// for each of the other bounds against its own comparison.
pub proof fn lemma_constrained_int_bounds<I: Input>(
    civ: crate::validators::ConstrainedIntValidator,
    slots: Seq<CombinedValidator>,
    input: I,
    estrict: bool,
    guard: Seq<usize>,
    fuel: nat,
    out: OutView,
)
    requires
        spec_validate(CombinedValidator::ConstrainedInt(civ), slots, input, estrict, guard, fuel)
            == Ok::<OutView, Seq<crate::errors::line_error::ValLineErrorView>>(out),
    ensures
        out is Int,
        civ.le is Some ==> out->Int_0 <= civ.le.unwrap(),
        civ.lt is Some ==> out->Int_0 < civ.lt.unwrap(),
        civ.ge is Some ==> out->Int_0 >= civ.ge.unwrap(),
        civ.gt is Some ==> out->Int_0 > civ.gt.unwrap(),
{
}

/// A recursive step on an input whose identity is already being validated
/// terminates at once with exactly one RecursionLoop line error.
pub proof fn lemma_recursion_loop_detected<I: Input>(
    v: CombinedValidator,
    slots: Seq<CombinedValidator>,
    input: I,
    estrict: bool,
    guard: Seq<usize>,
    fuel: nat,
    pid: usize,
)
    requires
        v is RecursiveContainer || v is RecursiveRef,
        input.sp_identity() == Some(pid),
        guard.contains(pid),
        fuel > 0,
    ensures
        spec_validate(v, slots, input, estrict, guard, fuel) == Err::<
            OutView,
            Seq<crate::errors::line_error::ValLineErrorView>,
        >(seq![leaf_err(ErrorKind::RecursionLoop, input.sp_error_value())]),
{
}

// ---------------------------------------------------------------------------
// Idempotent re-validation
// ---------------------------------------------------------------------------
/// No set node of the validator carries a minimum-cardinality bound.  With
/// such a bound, re-validation can fail: duplicates collapse, so an output
/// set may hold fewer elements than the source that satisfied the bound.
pub open spec fn validator_min_free(v: CombinedValidator) -> bool
    decreases v,
{
    match v {
        CombinedValidator::SetOf(sv) => sv.min_items is None && validator_min_free(
            *sv.item_validator,
        ),
        _ => true,
    }
}

pub open spec fn slots_min_free(slots: Seq<CombinedValidator>) -> bool {
    forall|i: int| 0 <= i < slots.len() ==> validator_min_free(#[trigger] slots[i])
}

/// No two elements are equal.
pub open spec fn no_dup(s: Seq<OutView>) -> bool {
    forall|i: int, j: int| 0 <= i < j < s.len() ==> s[i] != s[j]
}

/// What a canonical output of a validator looks like: the shape the
/// validator produces, already satisfying every check the validator makes.
pub open spec fn canonical(
    v: CombinedValidator,
    slots: Seq<CombinedValidator>,
    out: OutView,
    fuel: nat,
) -> bool
    decreases fuel, v, 0nat, 0nat,
{
    match v {
        CombinedValidator::Null(_) => out == OutView::Null,
        CombinedValidator::Int(_) => out is Int && i64::MIN <= out->Int_0 <= i64::MAX,
        CombinedValidator::ConstrainedInt(civ) => out is Int && i64::MIN <= out->Int_0
            <= i64::MAX && {
            let iv = out->Int_0;
            &&& (civ.multiple_of is Some ==> crate::validators::ints::spec_is_multiple(
                iv as i64,
                civ.multiple_of.unwrap(),
            ))
            &&& (civ.le is Some ==> iv <= civ.le.unwrap())
            &&& (civ.lt is Some ==> iv < civ.lt.unwrap())
            &&& (civ.ge is Some ==> iv >= civ.ge.unwrap())
            &&& (civ.gt is Some ==> iv > civ.gt.unwrap())
        },
        CombinedValidator::SetOf(sv) => out is SetOf && {
            let els = out->SetOf_0;
            &&& no_dup(els)
            &&& (sv.min_items is Some ==> els.len() >= sv.min_items.unwrap())
            &&& (sv.max_items is Some ==> els.len() <= sv.max_items.unwrap())
            &&& forall|k: int|
                0 <= k < els.len() ==> canonical(*sv.item_validator, slots, #[trigger] els[k], fuel)
        },
        CombinedValidator::RecursiveContainer(c) => fuel > 0 && canonical(
            slots[c.validator_id as int],
            slots,
            out,
            (fuel - 1) as nat,
        ),
        CombinedValidator::RecursiveRef(r) => fuel > 0 && canonical(
            slots[r.validator_id as int],
            slots,
            out,
            (fuel - 1) as nat,
        ),
    }
}

/// Whatever a min-free validator returns on success is canonical.
proof fn lemma_validate_canonical<I: Input>(
    v: CombinedValidator,
    slots: Seq<CombinedValidator>,
    input: I,
    estrict: bool,
    guard: Seq<usize>,
    fuel: nat,
    out: OutView,
)
    requires
        crate::validators::validator_wf(v, slots.len()),
        crate::validators::slots_wf(slots),
        validator_min_free(v),
        slots_min_free(slots),
        spec_validate(v, slots, input, estrict, guard, fuel) == Ok::<
            OutView,
            Seq<crate::errors::line_error::ValLineErrorView>,
        >(out),
    ensures
        canonical(v, slots, out, fuel),
    decreases fuel, v, 0nat, 0nat,
{
    reveal_with_fuel(spec_validate, 3);
    reveal_with_fuel(spec_validate_set, 3);
    reveal_with_fuel(spec_set_checks, 3);
    reveal_with_fuel(spec_validate_elements, 3);
    match v {
        CombinedValidator::SetOf(sv) => {
            match input.sp_set(sv.strict || estrict) {
                Ok(elems) => {
                    let r = spec_validate_elements(
                        *sv.item_validator,
                        slots,
                        elems,
                        0,
                        estrict,
                        guard,
                        fuel,
                        Seq::empty(),
                        Seq::empty(),
                    );
                    lemma_elements_canonical(
                        *sv.item_validator,
                        slots,
                        elems,
                        0,
                        estrict,
                        guard,
                        fuel,
                        Seq::empty(),
                        Seq::empty(),
                    );
                    lemma_elements_output_len(
                        *sv.item_validator,
                        slots,
                        elems,
                        0,
                        estrict,
                        guard,
                        fuel,
                        Seq::empty(),
                        Seq::empty(),
                    );
                    assert(out == OutView::SetOf(r.0));
                },
                Err(_) => {
                    assert(false);
                },
            }
        },
        CombinedValidator::RecursiveContainer(c) => {
            if fuel > 0 {
                match input.sp_identity() {
                    Some(pid) => {
                        if !guard.contains(pid) {
                            lemma_validate_canonical(
                                slots[c.validator_id as int],
                                slots,
                                input,
                                estrict,
                                guard.push(pid),
                                (fuel - 1) as nat,
                                out,
                            );
                        }
                    },
                    None => {
                        lemma_validate_canonical(
                            slots[c.validator_id as int],
                            slots,
                            input,
                            estrict,
                            guard,
                            (fuel - 1) as nat,
                            out,
                        );
                    },
                }
            }
        },
        CombinedValidator::RecursiveRef(rr) => {
            if fuel > 0 {
                match input.sp_identity() {
                    Some(pid) => {
                        if !guard.contains(pid) {
                            lemma_validate_canonical(
                                slots[rr.validator_id as int],
                                slots,
                                input,
                                estrict,
                                guard.push(pid),
                                (fuel - 1) as nat,
                                out,
                            );
                        }
                    },
                    None => {
                        lemma_validate_canonical(
                            slots[rr.validator_id as int],
                            slots,
                            input,
                            estrict,
                            guard,
                            (fuel - 1) as nat,
                            out,
                        );
                    },
                }
            }
        },
        _ => {},
    }
}

/// Element validation preserves canonicality and distinctness of the
/// collected outputs.
proof fn lemma_elements_canonical<I: Input>(
    itemv: CombinedValidator,
    slots: Seq<CombinedValidator>,
    elems: Seq<I>,
    i: int,
    estrict: bool,
    guard: Seq<usize>,
    fuel: nat,
    outs: Seq<OutView>,
    errs: Seq<crate::errors::line_error::ValLineErrorView>,
)
    requires
        0 <= i <= elems.len(),
        crate::validators::validator_wf(itemv, slots.len()),
        crate::validators::slots_wf(slots),
        validator_min_free(itemv),
        slots_min_free(slots),
        no_dup(outs),
        forall|k: int| 0 <= k < outs.len() ==> canonical(itemv, slots, #[trigger] outs[k], fuel),
    ensures
        ({
            let r = spec_validate_elements(itemv, slots, elems, i, estrict, guard, fuel, outs, errs);
            no_dup(r.0) && forall|k: int|
                0 <= k < r.0.len() ==> canonical(itemv, slots, #[trigger] r.0[k], fuel)
        }),
    decreases fuel, itemv, 1nat, elems.len() - i,
{
    reveal_with_fuel(spec_validate, 3);
    reveal_with_fuel(spec_validate_set, 3);
    reveal_with_fuel(spec_set_checks, 3);
    reveal_with_fuel(spec_validate_elements, 3);
    if i < elems.len() {
        match spec_validate(itemv, slots, elems[i], estrict, guard, fuel) {
            Ok(o) => {
                lemma_validate_canonical(itemv, slots, elems[i], estrict, guard, fuel, o);
                let outs2 = if outs.contains(o) {
                    outs
                } else {
                    outs.push(o)
                };
                assert(no_dup(outs2)) by {
                    if !outs.contains(o) {
                        assert forall|a: int, b: int|
                            0 <= a < b < outs2.len() implies outs2[a] != outs2[b] by {
                            if b == outs2.len() - 1 {
                                assert(outs2[a] == outs[a]);
                                assert(!outs.contains(o));
                            }
                        }
                    }
                }
                lemma_elements_canonical(
                    itemv,
                    slots,
                    elems,
                    i + 1,
                    estrict,
                    guard,
                    fuel,
                    outs2,
                    errs,
                );
            },
            Err(es) => {
                lemma_elements_canonical(
                    itemv,
                    slots,
                    elems,
                    i + 1,
                    estrict,
                    guard,
                    fuel,
                    outs,
                    errs + crate::validators::prefix_errs(es, i),
                );
            },
        }
    }
}

/// A canonical output, read back as a document value, re-validates to
/// itself through the same validator, whatever the mode, whatever the
/// guard state.
proof fn lemma_canonical_revalidates<'a>(
    v: CombinedValidator,
    slots: Seq<CombinedValidator>,
    out: OutView,
    j: JsonRef<'a>,
    estrict: bool,
    g2: Seq<usize>,
    fuel: nat,
)
    requires
        canonical(v, slots, out, fuel),
        (*j.v)@ == OutputValue::spec_as_json(out),
    ensures
        spec_validate(v, slots, j, estrict, g2, fuel) == Ok::<
            OutView,
            Seq<crate::errors::line_error::ValLineErrorView>,
        >(out),
    decreases fuel, v, 0nat, 0nat,
{
    reveal_with_fuel(spec_validate, 3);
    reveal_with_fuel(spec_validate_set, 3);
    reveal_with_fuel(spec_set_checks, 3);
    reveal_with_fuel(spec_validate_elements, 3);
    match v {
        CombinedValidator::Null(_) => {
            match (*j.v) {
                JsonInput::Null => {
                    assert(j.sp_is_none());
                },
                _ => {
                    assert(false);
                },
            }
        },
        CombinedValidator::Int(iv0) => {
            match (*j.v) {
                JsonInput::Int(x) => {
                    assert(x as int == out->Int_0);
                    assert(j.sp_int(iv0.strict || estrict) == Ok::<i64, ErrorKind>(x));
                    assert(out == OutView::Int(x as int));
                },
                _ => {
                    assert(false);
                },
            }
        },
        CombinedValidator::ConstrainedInt(civ) => {
            match (*j.v) {
                JsonInput::Int(x) => {
                    assert(x as int == out->Int_0);
                    assert(x == out->Int_0 as i64);
                    assert(j.sp_int(civ.strict || estrict) == Ok::<i64, ErrorKind>(x));
                    assert(out == OutView::Int(x as int));
                },
                _ => {
                    assert(false);
                },
            }
        },
        CombinedValidator::SetOf(sv) => {
            let els = out->SetOf_0;
            match (*j.v) {
                JsonInput::Array(vec) => {
                    crate::input::input_json::lemma_jsons_view_index(vec@);
                    crate::output::lemma_outs_as_json_index(els);
                    assert(vec@.len() == els.len());
                    let elems_j = j.element_refs(vec);
                    assert forall|k: int|
                        0 <= k < els.len() implies (*(#[trigger] elems_j[k]).v)@
                        == OutputValue::spec_as_json(els[k]) by {
                        assert(jsons_view(vec@)[k] == vec@[k]@);
                    }
                    lemma_elements_revalidate(
                        *sv.item_validator,
                        slots,
                        elems_j,
                        0,
                        estrict,
                        g2,
                        fuel,
                        els,
                    );
                    assert(els.take(0) =~= Seq::<OutView>::empty());
                    assert(spec_set_checks(
                        sv,
                        slots,
                        elems_j,
                        j.sp_error_value(),
                        estrict,
                        g2,
                        fuel,
                    ) == Ok::<OutView, Seq<crate::errors::line_error::ValLineErrorView>>(
                        OutView::SetOf(els),
                    ));
                },
                _ => {
                    assert(false);
                },
            }
        },
        CombinedValidator::RecursiveContainer(c) => {
            lemma_canonical_revalidates(
                slots[c.validator_id as int],
                slots,
                out,
                j,
                estrict,
                g2,
                (fuel - 1) as nat,
            );
        },
        CombinedValidator::RecursiveRef(rr) => {
            lemma_canonical_revalidates(
                slots[rr.validator_id as int],
                slots,
                out,
                j,
                estrict,
                g2,
                (fuel - 1) as nat,
            );
        },
    }
}

/// Re-validating document elements that each read back as one distinct
/// canonical output collects exactly those outputs, with no errors.
proof fn lemma_elements_revalidate<'a>(
    itemv: CombinedValidator,
    slots: Seq<CombinedValidator>,
    elems_j: Seq<JsonRef<'a>>,
    i: int,
    estrict: bool,
    g2: Seq<usize>,
    fuel: nat,
    els: Seq<OutView>,
)
    requires
        0 <= i <= els.len(),
        elems_j.len() == els.len(),
        no_dup(els),
        forall|k: int|
            0 <= k < els.len() ==> canonical(itemv, slots, #[trigger] els[k], fuel),
        forall|k: int|
            0 <= k < els.len() ==> (*(#[trigger] elems_j[k]).v)@ == OutputValue::spec_as_json(
                els[k],
            ),
    ensures
        spec_validate_elements(itemv, slots, elems_j, i, estrict, g2, fuel, els.take(i), Seq::empty())
            == (els, Seq::<crate::errors::line_error::ValLineErrorView>::empty()),
    decreases fuel, itemv, 1nat, els.len() - i,
{
    reveal_with_fuel(spec_validate, 3);
    reveal_with_fuel(spec_validate_set, 3);
    reveal_with_fuel(spec_set_checks, 3);
    reveal_with_fuel(spec_validate_elements, 3);
    if i < els.len() {
        lemma_canonical_revalidates(itemv, slots, els[i], elems_j[i], estrict, g2, fuel);
        assert(!els.take(i).contains(els[i])) by {
            if els.take(i).contains(els[i]) {
                let w = choose|w: int| 0 <= w < i && els.take(i)[w] == els[i];
                assert(els[w] == els[i]);
            }
        }
        assert(els.take(i).push(els[i]) =~= els.take(i + 1));
        lemma_elements_revalidate(itemv, slots, elems_j, i + 1, estrict, g2, fuel, els);
    } else {
        assert(els.take(i) =~= els);
    }
}

/// Re-validating an already-canonical output value through the same
/// validator succeeds and yields an equal value, for every validator tree
/// without minimum-cardinality bounds: whatever input produced the output,
/// reading the output back as a document value and validating it again,
/// in either mode and under any guard state, returns exactly that output.
pub proof fn lemma_revalidate_idempotent<'a, I: Input>(
    v: CombinedValidator,
    slots: Seq<CombinedValidator>,
    input: I,
    estrict: bool,
    guard: Seq<usize>,
    fuel: nat,
    out: OutView,
    j: JsonRef<'a>,
    estrict2: bool,
    g2: Seq<usize>,
)
    requires
        crate::validators::validator_wf(v, slots.len()),
        crate::validators::slots_wf(slots),
        validator_min_free(v),
        slots_min_free(slots),
        spec_validate(v, slots, input, estrict, guard, fuel) == Ok::<
            OutView,
            Seq<crate::errors::line_error::ValLineErrorView>,
        >(out),
        (*j.v)@ == OutputValue::spec_as_json(out),
    ensures
        spec_validate(v, slots, j, estrict2, g2, fuel) == Ok::<
            OutView,
            Seq<crate::errors::line_error::ValLineErrorView>,
        >(out),
{
    lemma_validate_canonical(v, slots, input, estrict, guard, fuel, out);
    lemma_canonical_revalidates(v, slots, out, j, estrict2, g2, fuel);
}

} // verus!
