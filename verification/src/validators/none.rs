//! The none validator: success exactly on a null input.
use vstd::prelude::*;

use crate::errors::kinds::ErrorKind;
use crate::errors::line_error::ValLineError;
use crate::errors::val_error::{ValError, ValResult};
use crate::input::input_abstract::Input;
use crate::output::OutputValue;
use crate::recursion_guard::RecursionGuard;
use crate::schema::{Config, Schema};
use crate::validators::{
    result_matches, slots_wf, spec_validate, BuildContext, BuildError, CombinedValidator, Extra,
};

verus! {

#[derive(Debug, Clone, Copy)]
pub struct NoneValidator;

impl NoneValidator {
    pub fn build(
        _schema: &Schema,
        _config: Option<&Config>,
        build_context: &mut BuildContext,
    ) -> (r: Result<CombinedValidator, BuildError>)
        ensures
            final(build_context)@ == old(build_context)@,
            r == Ok::<CombinedValidator, BuildError>(CombinedValidator::Null(NoneValidator)),
    {
        Ok(CombinedValidator::Null(NoneValidator))
    }

    /// Success iff the input is null; else one NoneRequired line error.
    pub fn validate<I: Input + Copy>(
        &self,
        input: I,
        extra: &Extra,
        slots: &Vec<CombinedValidator>,
        recursion_guard: &mut RecursionGuard,
        fuel: u64,
    ) -> (r: ValResult<OutputValue>)
        requires
            input.wf(),
        ensures
            final(recursion_guard)@ == old(recursion_guard)@,
            result_matches(
                r,
                spec_validate(
                    CombinedValidator::Null(*self),
                    slots@,
                    input,
                    extra.strict,
                    old(recursion_guard)@,
                    fuel as nat,
                ),
            ),
    {
        if input.is_none() {
            Ok(OutputValue::Null)
        } else {
            Err(
                ValError::from_line_error(
                    ValLineError::new(ErrorKind::NoneRequired, input.as_error_value()),
                ),
            )
        }
    }

    pub fn get_name(&self) -> (r: String)
        ensures
            r@ == "none"@,
    {
        String::from_str("none")
    }
}

} // verus!
