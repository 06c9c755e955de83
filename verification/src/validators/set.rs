//! The set validator: coerces the input to a generic ordered view (strict:
//! set-like source only; lax: also list-like), enforces optional
//! cardinality bounds, validates every element against one item validator
//! without short-circuiting, prefixes each element's index to its
//! failures, and collects successes into an output set that deduplicates
//! by equality.
use vstd::prelude::*;

use crate::errors::kinds::ErrorKind;
use crate::errors::line_error::{Context, ContextValue, ValLineError, ValLineErrorView};
use crate::errors::location::{LocItem, LocItemView};
use crate::errors::val_error::{ValError, ValResult};
use crate::input::input_abstract::Input;
use crate::output::{outs_view, OutView, OutputValue};
use crate::recursion_guard::RecursionGuard;
use crate::schema::{is_strict, Config, Schema};
use crate::validators::{
    build_validator, errs_view, prefix_errs, result_matches, set_size_err, slots_wf,
    spec_set_checks, spec_validate, spec_validate_elements, spec_validate_set, validator_wf,
    BuildContext, BuildError, CombinedValidator, Extra,
};

verus! {

#[derive(Debug)]
pub struct SetValidator {
    pub strict: bool,
    pub item_validator: Box<CombinedValidator>,
    pub min_items: Option<u64>,
    pub max_items: Option<u64>,
}

impl SetValidator {
    pub fn build(
        schema: &Schema,
        config: Option<&Config>,
        build_context: &mut BuildContext,
    ) -> (r: Result<CombinedValidator, BuildError>)
        ensures
            match r {
                Ok(v) => crate::validators::spec_build_set(
                    schema@,
                    crate::schema::spec_config(config),
                    old(build_context)@,
                ) == Ok::<
                    (CombinedValidator, Seq<(Seq<char>, Option<CombinedValidator>)>),
                    Seq<char>,
                >((v, final(build_context)@)) && old(build_context)@.len() <= final(build_context)@.len(),
                Err(e) => crate::validators::spec_build_set(
                    schema@,
                    crate::schema::spec_config(config),
                    old(build_context)@,
                ) == Err::<
                    (CombinedValidator, Seq<(Seq<char>, Option<CombinedValidator>)>),
                    Seq<char>,
                >(e@),
            },
        decreases *schema, 0nat,
    {
        match &schema.items {
            None => Err(
                BuildError { message: String::from_str("set schema requires an items schema") },
            ),
            Some(item_schema) => {
                let bounds_ok = (match schema.min_items {
                    Some(m) => m <= i64::MAX as u64,
                    None => true,
                }) && (match schema.max_items {
                    Some(m) => m <= i64::MAX as u64,
                    None => true,
                });
                if !bounds_ok {
                    return Err(
                        BuildError {
                            message: String::from_str(
                                "set cardinality bounds must fit a 64-bit signed integer",
                            ),
                        },
                    );
                }
                proof {
                    assert(decreases_to!(*schema => schema.items));
                    assert(decreases_to!(schema.items => schema.items->Some_0));
                }
                let item = match build_validator(item_schema, config, build_context) {
                    Ok(v) => v,
                    Err(e) => {
                        return Err(e);
                    },
                };
                Ok(
                    CombinedValidator::SetOf(
                        SetValidator {
                            strict: is_strict(schema, config),
                            item_validator: Box::new(item),
                            min_items: schema.min_items,
                            max_items: schema.max_items,
                        },
                    ),
                )
            },
        }
    }

    pub fn validate<I: Input + Copy>(
        &self,
        input: I,
        extra: &Extra,
        slots: &Vec<CombinedValidator>,
        recursion_guard: &mut RecursionGuard,
        fuel: u64,
    ) -> (r: ValResult<OutputValue>)
        requires
            input.wf(),
            validator_wf(CombinedValidator::SetOf(*self), slots@.len()),
            slots_wf(slots@),
        ensures
            final(recursion_guard)@ == old(recursion_guard)@,
            result_matches(
                r,
                spec_validate(
                    CombinedValidator::SetOf(*self),
                    slots@,
                    input,
                    extra.strict,
                    old(recursion_guard)@,
                    fuel as nat,
                ),
            ),
        decreases fuel, CombinedValidator::SetOf(*self), 2nat, 1nat,
    {
        let ghost g0 = recursion_guard@;
        let r = match input.validate_set(self.strict || extra.strict) {
            Ok(list) => self._validation_logic(input, list, extra, slots, recursion_guard, fuel),
            Err(e) => Err(ValError::from_line_error(e)),
        };
        proof {
            assert(spec_validate(
                CombinedValidator::SetOf(*self),
                slots@,
                input,
                extra.strict,
                g0,
                fuel as nat,
            ) == spec_validate_set(
                *self,
                slots@,
                input,
                self.strict || extra.strict,
                extra.strict,
                g0,
                fuel as nat,
            ));
        }
        r
    }

    /// As `validate`, but always coercing in strict mode.
    pub fn validate_strict<I: Input + Copy>(
        &self,
        input: I,
        extra: &Extra,
        slots: &Vec<CombinedValidator>,
        recursion_guard: &mut RecursionGuard,
        fuel: u64,
    ) -> (r: ValResult<OutputValue>)
        requires
            input.wf(),
            validator_wf(CombinedValidator::SetOf(*self), slots@.len()),
            slots_wf(slots@),
        ensures
            final(recursion_guard)@ == old(recursion_guard)@,
            result_matches(
                r,
                spec_validate_set(
                    *self,
                    slots@,
                    input,
                    true,
                    extra.strict,
                    old(recursion_guard)@,
                    fuel as nat,
                ),
            ),
        decreases fuel, CombinedValidator::SetOf(*self), 2nat, 1nat,
    {
        match input.strict_set() {
            Ok(list) => self._validation_logic(input, list, extra, slots, recursion_guard, fuel),
            Err(e) => Err(ValError::from_line_error(e)),
        }
    }

    pub fn get_name(&self) -> (r: String)
        ensures
            r@ == crate::validators::spec_name(CombinedValidator::SetOf(*self)),
        decreases CombinedValidator::SetOf(*self), 0nat,
    {
        proof {
            assert(decreases_to!(CombinedValidator::SetOf(*self) => CombinedValidator::SetOf(
                *self,
            )->SetOf_0));
            assert(decreases_to!(*self => self.item_validator));
        }
        let inner = self.item_validator.get_name();
        let r = String::from_str("set[").concat(inner.as_str()).concat("]");
        proof {
            assert(r@ =~= "set["@ + inner@ + "]"@);
        }
        r
    }

    fn _validation_logic<I: Input + Copy>(
        &self,
        input: I,
        list: Vec<I>,
        extra: &Extra,
        slots: &Vec<CombinedValidator>,
        recursion_guard: &mut RecursionGuard,
        fuel: u64,
    ) -> (r: ValResult<OutputValue>)
        requires
            input.wf(),
            forall|i: int| 0 <= i < list@.len() ==> (#[trigger] list@[i]).wf(),
            validator_wf(CombinedValidator::SetOf(*self), slots@.len()),
            slots_wf(slots@),
        ensures
            final(recursion_guard)@ == old(recursion_guard)@,
            result_matches(
                r,
                spec_set_checks(
                    *self,
                    slots@,
                    list@,
                    input.sp_error_value(),
                    extra.strict,
                    old(recursion_guard)@,
                    fuel as nat,
                ),
            ),
        decreases fuel, CombinedValidator::SetOf(*self), 1nat, 0nat,
    {
        let ghost g0 = recursion_guard@;
        let ghost elems = list@;
        let length = list.len();
        match self.min_items {
            Some(min_length) => {
                if (length as u64) < min_length {
                    let context = Context::new(
                        vec![
                            (String::from_str("type"), ContextValue::S(String::from_str("Set"))),
                            (String::from_str("min_length"), ContextValue::I(min_length as i64)),
                        ],
                    );
                    let e = ValLineError::new_with_context(
                        ErrorKind::TooShort,
                        input.as_error_value(),
                        context,
                    );
                    proof {
                        assert(e@ =~= set_size_err(
                            ErrorKind::TooShort,
                            input.sp_error_value(),
                            "min_length"@,
                            min_length as int,
                        ));
                    }
                    return Err(ValError::from_line_error(e));
                }
            },
            None => {},
        }
        match self.max_items {
            Some(max_length) => {
                if (length as u64) > max_length {
                    let context = Context::new(
                        vec![
                            (String::from_str("type"), ContextValue::S(String::from_str("Set"))),
                            (String::from_str("max_length"), ContextValue::I(max_length as i64)),
                        ],
                    );
                    let e = ValLineError::new_with_context(
                        ErrorKind::TooLong,
                        input.as_error_value(),
                        context,
                    );
                    proof {
                        assert(e@ =~= set_size_err(
                            ErrorKind::TooLong,
                            input.sp_error_value(),
                            "max_length"@,
                            max_length as int,
                        ));
                    }
                    return Err(ValError::from_line_error(e));
                }
            },
            None => {},
        }
        let mut output: Vec<OutputValue> = Vec::new();
        let mut errors: Vec<ValLineError> = Vec::new();
        let mut i: usize = 0;
        proof {
            assert(outs_view(output@) =~= Seq::<OutView>::empty());
            assert(errs_view(errors@) =~= Seq::<ValLineErrorView>::empty());
        }
        while i < list.len()
            invariant
                0 <= i <= list.len(),
                list@ == elems,
                input.wf(),
                forall|j: int| 0 <= j < elems.len() ==> (#[trigger] elems[j]).wf(),
                validator_wf(CombinedValidator::SetOf(*self), slots@.len()),
                slots_wf(slots@),
                recursion_guard@ == g0,
                spec_validate_elements(
                    *self.item_validator,
                    slots@,
                    elems,
                    0,
                    extra.strict,
                    g0,
                    fuel as nat,
                    Seq::empty(),
                    Seq::empty(),
                ) == spec_validate_elements(
                    *self.item_validator,
                    slots@,
                    elems,
                    i as int,
                    extra.strict,
                    g0,
                    fuel as nat,
                    outs_view(output@),
                    errs_view(errors@),
                ),
            decreases list.len() - i,
        {
            proof {
                broadcast use vstd::std_specs::vec::group_vec_axioms;

                assert(decreases_to!(CombinedValidator::SetOf(*self) => CombinedValidator::SetOf(
                    *self,
                )->SetOf_0));
                assert(decreases_to!(*self => self.item_validator));
            }
            let ghost outs0 = outs_view(output@);
            let ghost errs0 = errs_view(errors@);
            let elem = list[i];
            let r = self.item_validator.validate(elem, extra, slots, recursion_guard, fuel);
            match r {
                Ok(o) => {
                    let ghost ov = o@;
                    let ghost out_before = output@;
                    if !contains_output(&output, &o) {
                        output.push(o);
                        proof {
                            assert(output@.drop_last() =~= out_before);
                            assert(outs_view(output@) =~= outs0.push(ov));
                        }
                    }
                },
                Err(e) => {
                    match e {
                        ValError::LineErrors(es) => {
                            let mut es = es;
                            let ghost es0 = errs_view(es@);
                            let ghost target = errs0 + prefix_errs(es0, i as int);
                            proof {
                                assert(es0.take(0) =~= Seq::<ValLineErrorView>::empty());
                                assert(errs0 + prefix_errs(es0.take(0), i as int) =~= errs0);
                            }
                            while es.len() > 0
                                invariant
                                    errs_view(es@) == es0.skip(es0.len() - es@.len()),
                                    es0.len() >= es@.len(),
                                    errs_view(errors@) == errs0 + prefix_errs(
                                        es0.take(es0.len() - es@.len()),
                                        i as int,
                                    ),
                                decreases es.len(),
                            {
                                let ghost done = es0.len() - es@.len();
                                let ghost es_before = es@;
                                let e0 = es.remove(0);
                                proof {
                                    assert(errs_view(es_before)[0] == e0@);
                                    assert(e0@ == es0[done]);
                                    assert(es@ =~= es_before.drop_first());
                                    assert(errs_view(es@) =~= errs_view(es_before).drop_first());
                                    assert(errs_view(es_before).drop_first() =~= es0.skip(
                                        done,
                                    ).drop_first());
                                    assert(es0.skip(done).drop_first() =~= es0.skip(done + 1));
                                }
                                let e1 = e0.with_prefix_location(LocItem::Index(i as u64));
                                let ghost errors_before = errors@;
                                errors.push(e1);
                                proof {
                                    assert(errors@.drop_last() =~= errors_before);
                                    assert(es0.take(done + 1).drop_last() =~= es0.take(done));
                                    assert(es0.take(done + 1).last() == es0[done]);
                                    assert(errs_view(errors@) =~= errs_view(errors_before).push(
                                        e1@,
                                    ));
                                    assert(prefix_errs(es0.take(done + 1), i as int) =~= prefix_errs(
                                        es0.take(done),
                                        i as int,
                                    ).push(crate::errors::line_error::spec_with_prefix(
                                        es0[done],
                                        LocItemView::Index(i as int),
                                    )));
                                    assert(errs_view(errors@) =~= errs0 + prefix_errs(
                                        es0.take(done + 1),
                                        i as int,
                                    ));
                                }
                            }
                            proof {
                                assert(es0.take(es0.len() as int) =~= es0);
                                assert(errs_view(errors@) == target);
                            }
                        },
                        ValError::InternalErr(m) => {
                            proof {
                                assert(false);
                            }
                            return Err(ValError::InternalErr(m));
                        },
                    }
                },
            }
            i += 1;
        }
        if errors.len() == 0 {
            proof {
                assert(errs_view(errors@) =~= Seq::<ValLineErrorView>::empty());
            }
            Ok(OutputValue::SetOf(output))
        } else {
            proof {
                assert(errs_view(errors@).len() > 0);
            }
            Err(ValError::LineErrors(errors))
        }
    }
}

/// Whether an equal output value was already collected.
fn contains_output(v: &Vec<OutputValue>, x: &OutputValue) -> (r: bool)
    ensures
        r == outs_view(v@).contains(x@),
{
    proof {
        crate::output::lemma_outs_view_index(v@);
    }
    let mut i: usize = 0;
    while i < v.len()
        invariant
            0 <= i <= v.len(),
            outs_view(v@).len() == v@.len(),
            forall|j: int| 0 <= j < v@.len() ==> outs_view(v@)[j] == (#[trigger] v@[j])@,
            forall|j: int| 0 <= j < i ==> (#[trigger] v@[j])@ != x@,
        decreases v.len() - i,
    {
        if v[i].value_eq(x) {
            proof {
                assert(outs_view(v@)[i as int] == x@);
            }
            return true;
        }
        i += 1;
    }
    proof {
        assert forall|j: int| 0 <= j < outs_view(v@).len() implies outs_view(v@)[j] != x@ by {}
    }
    false
}

} // verus!
