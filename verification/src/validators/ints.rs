//! The integer validators.  A plain int validator only coerces; the
//! constrained variant additionally enforces multiple-of and the four
//! comparison bounds, in that order.  Presence of any bound option at build
//! time selects the constrained variant, so the common unconstrained path
//! pays no bound checks.
use vstd::prelude::*;

use crate::errors::kinds::ErrorKind;
use crate::errors::line_error::{leaf_err, InputValueView, ValLineError, ValLineErrorView};
use crate::errors::val_error::{ValError, ValResult};
use crate::input::input_abstract::Input;
use crate::output::{OutView, OutputValue};
use crate::recursion_guard::RecursionGuard;
use crate::schema::{is_strict, spec_config, spec_is_strict, Config, Schema, SchemaView};
use crate::validators::{
    result_matches, slots_wf, spec_validate, validator_wf, BuildContext, BuildError,
    CombinedValidator, Extra,
};

verus! {

#[derive(Debug, Clone, Copy)]
pub struct IntValidator {
    pub strict: bool,
}

/// The validator an `int` schema node compiles to: constrained when any
/// bound or multiple-of option is present, plain otherwise; a zero
/// multiple-of is a structural error.
pub open spec fn spec_build_int(s: SchemaView, c: Option<Config>) -> Result<
    CombinedValidator,
    Seq<char>,
> {
    if s.multiple_of is Some || s.le is Some || s.lt is Some || s.ge is Some || s.gt is Some {
        if s.multiple_of == Some(0i64) {
            Err("multiple_of bound must be nonzero"@)
        } else {
            Ok(
                CombinedValidator::ConstrainedInt(
                    ConstrainedIntValidator {
                        strict: spec_is_strict(s, c),
                        multiple_of: s.multiple_of,
                        le: s.le,
                        lt: s.lt,
                        ge: s.ge,
                        gt: s.gt,
                    },
                ),
            )
        }
    } else {
        Ok(CombinedValidator::Int(IntValidator { strict: spec_is_strict(s, c) }))
    }
}

impl IntValidator {
    pub fn build(
        schema: &Schema,
        config: Option<&Config>,
        build_context: &mut BuildContext,
    ) -> (r: Result<CombinedValidator, BuildError>)
        ensures
            final(build_context)@ == old(build_context)@,
            match r {
                Ok(v) => spec_build_int(schema@, spec_config(config)) == Ok::<
                    CombinedValidator,
                    Seq<char>,
                >(v),
                Err(e) => spec_build_int(schema@, spec_config(config)) == Err::<
                    CombinedValidator,
                    Seq<char>,
                >(e@),
            },
    {
        let use_constrained = schema.multiple_of.is_some() || schema.le.is_some()
            || schema.lt.is_some() || schema.ge.is_some() || schema.gt.is_some();
        if use_constrained {
            ConstrainedIntValidator::build(schema, config)
        } else {
            Ok(CombinedValidator::Int(IntValidator { strict: is_strict(schema, config) }))
        }
    }

    pub fn validate<I: Input + Copy>(
        &self,
        input: I,
        extra: &Extra,
        slots: &Vec<CombinedValidator>,
        recursion_guard: &mut RecursionGuard,
        fuel: u64,
    ) -> (r: ValResult<OutputValue>)
        requires
            input.wf(),
        ensures
            final(recursion_guard)@ == old(recursion_guard)@,
            result_matches(
                r,
                spec_validate(
                    CombinedValidator::Int(*self),
                    slots@,
                    input,
                    extra.strict,
                    old(recursion_guard)@,
                    fuel as nat,
                ),
            ),
    {
        match input.validate_int(self.strict || extra.strict) {
            Ok(i) => Ok(OutputValue::Int(i)),
            Err(e) => Err(ValError::from_line_error(e)),
        }
    }

    pub fn get_name(&self) -> (r: &'static str)
        ensures
            r@ == "int"@,
    {
        "int"
    }
}

#[derive(Debug, Clone, Copy)]
pub struct ConstrainedIntValidator {
    pub strict: bool,
    pub multiple_of: Option<i64>,
    pub le: Option<i64>,
    pub lt: Option<i64>,
    pub ge: Option<i64>,
    pub gt: Option<i64>,
}

pub open spec fn spec_abs(i: int) -> int {
    if i < 0 {
        -i
    } else {
        i
    }
}

/// Divisibility of `i` by `m`, compared on magnitudes.
pub open spec fn spec_is_multiple(i: i64, m: i64) -> bool {
    spec_abs(i as int) % spec_abs(m as int) == 0
}

/// The constrained validator's outcome given the integer coercion's
/// result: the first violated constraint, checked in the order multiple-of,
/// le, lt, ge, gt, each with the violated bound as context.
pub open spec fn spec_constrained_int_result(
    civ: ConstrainedIntValidator,
    ir: Result<i64, ErrorKind>,
    ev: InputValueView,
) -> Result<OutView, Seq<ValLineErrorView>> {
    match ir {
        Err(k) => Err(seq![leaf_err(k, ev)]),
        Ok(i) => if civ.multiple_of is Some && !spec_is_multiple(i, civ.multiple_of.unwrap()) {
            Err(
                seq![
                    leaf_err(
                        ErrorKind::IntMultipleOf { multiple_of: civ.multiple_of.unwrap() },
                        ev,
                    ),
                ],
            )
        } else if civ.le is Some && i > civ.le.unwrap() {
            Err(seq![leaf_err(ErrorKind::IntLessThanEqual { le: civ.le.unwrap() }, ev)])
        } else if civ.lt is Some && i >= civ.lt.unwrap() {
            Err(seq![leaf_err(ErrorKind::IntLessThan { lt: civ.lt.unwrap() }, ev)])
        } else if civ.ge is Some && i < civ.ge.unwrap() {
            Err(seq![leaf_err(ErrorKind::IntGreaterThanEqual { ge: civ.ge.unwrap() }, ev)])
        } else if civ.gt is Some && i <= civ.gt.unwrap() {
            Err(seq![leaf_err(ErrorKind::IntGreaterThan { gt: civ.gt.unwrap() }, ev)])
        } else {
            Ok(OutView::Int(i as int))
        },
    }
}

/// The magnitude of an `i64`, without overflow at the minimum.
fn abs_u64(i: i64) -> (r: u64)
    ensures
        r == spec_abs(i as int),
{
    if i >= 0 {
        i as u64
    } else {
        ((-1 - i) as u64) + 1
    }
}

fn is_multiple(i: i64, m: i64) -> (r: bool)
    requires
        m != 0,
    ensures
        r == spec_is_multiple(i, m),
{
    let im = abs_u64(i);
    let mm = abs_u64(m);
    im % mm == 0
}

impl ConstrainedIntValidator {
    pub fn validate<I: Input + Copy>(
        &self,
        input: I,
        extra: &Extra,
        slots: &Vec<CombinedValidator>,
        recursion_guard: &mut RecursionGuard,
        fuel: u64,
    ) -> (r: ValResult<OutputValue>)
        requires
            input.wf(),
            validator_wf(CombinedValidator::ConstrainedInt(*self), slots@.len()),
        ensures
            final(recursion_guard)@ == old(recursion_guard)@,
            result_matches(
                r,
                spec_validate(
                    CombinedValidator::ConstrainedInt(*self),
                    slots@,
                    input,
                    extra.strict,
                    old(recursion_guard)@,
                    fuel as nat,
                ),
            ),
    {
        let n = match input.validate_int(self.strict || extra.strict) {
            Ok(i) => i,
            Err(e) => {
                return Err(ValError::from_line_error(e));
            },
        };
        match self.multiple_of {
            Some(multiple_of) => {
                if !is_multiple(n, multiple_of) {
                    return Err(
                        ValError::from_line_error(
                            ValLineError::new(
                                ErrorKind::IntMultipleOf { multiple_of },
                                input.as_error_value(),
                            ),
                        ),
                    );
                }
            },
            None => {},
        }
        match self.le {
            Some(le) => {
                if n > le {
                    return Err(
                        ValError::from_line_error(
                            ValLineError::new(
                                ErrorKind::IntLessThanEqual { le },
                                input.as_error_value(),
                            ),
                        ),
                    );
                }
            },
            None => {},
        }
        match self.lt {
            Some(lt) => {
                if n >= lt {
                    return Err(
                        ValError::from_line_error(
                            ValLineError::new(ErrorKind::IntLessThan { lt }, input.as_error_value()),
                        ),
                    );
                }
            },
            None => {},
        }
        match self.ge {
            Some(ge) => {
                if n < ge {
                    return Err(
                        ValError::from_line_error(
                            ValLineError::new(
                                ErrorKind::IntGreaterThanEqual { ge },
                                input.as_error_value(),
                            ),
                        ),
                    );
                }
            },
            None => {},
        }
        match self.gt {
            Some(gt) => {
                if n <= gt {
                    return Err(
                        ValError::from_line_error(
                            ValLineError::new(
                                ErrorKind::IntGreaterThan { gt },
                                input.as_error_value(),
                            ),
                        ),
                    );
                }
            },
            None => {},
        }
        Ok(OutputValue::Int(n))
    }

    pub fn get_name(&self) -> (r: &'static str)
        ensures
            r@ == "constrained-int"@,
    {
        "constrained-int"
    }

    fn build(schema: &Schema, config: Option<&Config>) -> (r: Result<CombinedValidator, BuildError>)
        requires
            schema@.multiple_of is Some || schema@.le is Some || schema@.lt is Some || schema@.ge
                is Some || schema@.gt is Some,
        ensures
            match r {
                Ok(v) => spec_build_int(schema@, spec_config(config)) == Ok::<
                    CombinedValidator,
                    Seq<char>,
                >(v),
                Err(e) => spec_build_int(schema@, spec_config(config)) == Err::<
                    CombinedValidator,
                    Seq<char>,
                >(e@),
            },
    {
        match schema.multiple_of {
            Some(m) => {
                if m == 0 {
                    return Err(
                        BuildError {
                            message: String::from_str("multiple_of bound must be nonzero"),
                        },
                    );
                }
            },
            None => {},
        }
        Ok(
            CombinedValidator::ConstrainedInt(
                ConstrainedIntValidator {
                    strict: is_strict(schema, config),
                    multiple_of: schema.multiple_of,
                    le: schema.le,
                    lt: schema.lt,
                    ge: schema.ge,
                    gt: schema.gt,
                },
            ),
        )
    }
}

} // verus!
