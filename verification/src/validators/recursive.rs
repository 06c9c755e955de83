//! Support for self-referential schemas.  Build time reserves a named slot
//! in the slot table; both variants here store only its index, never a
//! direct validator-to-validator ownership edge.  Validate time forwards
//! through the slot, guarded by the per-call cycle detector and the fuel
//! bound.
use vstd::prelude::*;

use crate::errors::kinds::ErrorKind;
use crate::errors::line_error::{leaf_err, ValLineError, ValLineErrorView};
use crate::errors::val_error::{ValError, ValResult};
use crate::input::input_abstract::Input;
use crate::output::{OutView, OutputValue};
use crate::recursion_guard::RecursionGuard;
use crate::schema::{Config, Schema, SchemaView};
use crate::validators::{
    result_matches, slots_wf, spec_find_slot, spec_validate, validator_wf, BuildContext,
    BuildError, CombinedValidator, Extra,
};

verus! {

#[derive(Debug, Clone, Copy)]
pub struct RecursiveContainerValidator {
    pub validator_id: usize,
}

impl RecursiveContainerValidator {
    pub fn create(validator_id: usize) -> (r: CombinedValidator)
        ensures
            r == CombinedValidator::RecursiveContainer(
                RecursiveContainerValidator { validator_id },
            ),
    {
        CombinedValidator::RecursiveContainer(RecursiveContainerValidator { validator_id })
    }

    pub fn validate<I: Input + Copy>(
        &self,
        input: I,
        extra: &Extra,
        slots: &Vec<CombinedValidator>,
        recursion_guard: &mut RecursionGuard,
        fuel: u64,
    ) -> (r: ValResult<OutputValue>)
        requires
            input.wf(),
            validator_wf(CombinedValidator::RecursiveContainer(*self), slots@.len()),
            slots_wf(slots@),
        ensures
            final(recursion_guard)@ == old(recursion_guard)@,
            result_matches(
                r,
                spec_validate(
                    CombinedValidator::RecursiveContainer(*self),
                    slots@,
                    input,
                    extra.strict,
                    old(recursion_guard)@,
                    fuel as nat,
                ),
            ),
        decreases fuel, CombinedValidator::RecursiveContainer(*self), 2nat, 0nat,
    {
        validate(
            self.validator_id,
            input,
            extra,
            slots,
            recursion_guard,
            fuel,
            Ghost(CombinedValidator::RecursiveContainer(*self)),
        )
    }

    pub fn get_name(&self) -> (r: String)
        ensures
            r@ == "recursive-container"@,
    {
        String::from_str("recursive-container")
    }
}

#[derive(Debug, Clone, Copy)]
pub struct RecursiveRefValidator {
    pub validator_id: usize,
}

/// The validator a `recursive-ref` schema node compiles to: the slot its
/// `schema_ref` resolves to; an unresolved or missing name is a structural
/// error, with no forward-reference retry.
pub open spec fn spec_build_ref(
    s: SchemaView,
    ctx: Seq<(Seq<char>, Option<CombinedValidator>)>,
) -> Result<CombinedValidator, Seq<char>> {
    match s.schema_ref {
        None => Err("recursive-ref schema requires a schema_ref"@),
        Some(n) => match spec_find_slot(ctx, n) {
            Some(id) => Ok(
                CombinedValidator::RecursiveRef(RecursiveRefValidator { validator_id: id as usize }),
            ),
            None => Err("unresolved schema reference: "@ + n),
        },
    }
}

impl RecursiveRefValidator {
    pub fn build(
        schema: &Schema,
        _config: Option<&Config>,
        build_context: &mut BuildContext,
    ) -> (r: Result<CombinedValidator, BuildError>)
        ensures
            final(build_context)@ == old(build_context)@,
            match r {
                Ok(v) => spec_build_ref(schema@, old(build_context)@) == Ok::<
                    CombinedValidator,
                    Seq<char>,
                >(v),
                Err(e) => spec_build_ref(schema@, old(build_context)@) == Err::<
                    CombinedValidator,
                    Seq<char>,
                >(e@),
            },
    {
        match &schema.schema_ref {
            None => Err(
                BuildError {
                    message: String::from_str("recursive-ref schema requires a schema_ref"),
                },
            ),
            Some(name) => {
                let validator_id = match build_context.find_slot_id(name.as_str()) {
                    Ok(id) => id,
                    Err(e) => {
                        return Err(e);
                    },
                };
                Ok(CombinedValidator::RecursiveRef(RecursiveRefValidator { validator_id }))
            },
        }
    }

    pub fn validate<I: Input + Copy>(
        &self,
        input: I,
        extra: &Extra,
        slots: &Vec<CombinedValidator>,
        recursion_guard: &mut RecursionGuard,
        fuel: u64,
    ) -> (r: ValResult<OutputValue>)
        requires
            input.wf(),
            validator_wf(CombinedValidator::RecursiveRef(*self), slots@.len()),
            slots_wf(slots@),
        ensures
            final(recursion_guard)@ == old(recursion_guard)@,
            result_matches(
                r,
                spec_validate(
                    CombinedValidator::RecursiveRef(*self),
                    slots@,
                    input,
                    extra.strict,
                    old(recursion_guard)@,
                    fuel as nat,
                ),
            ),
        decreases fuel, CombinedValidator::RecursiveRef(*self), 2nat, 0nat,
    {
        validate(
            self.validator_id,
            input,
            extra,
            slots,
            recursion_guard,
            fuel,
            Ghost(CombinedValidator::RecursiveRef(*self)),
        )
    }

    pub fn get_name(&self) -> (r: String)
        ensures
            r@ == "recursive-ref"@,
    {
        String::from_str("recursive-ref")
    }
}

/// Forwards through a slot: out of fuel or an identity already on the
/// guard reports RecursionLoop; otherwise the identity (when the input has
/// one) is held on the guard exactly for the duration of the descent.
fn validate<I: Input + Copy>(
    validator_id: usize,
    input: I,
    extra: &Extra,
    slots: &Vec<CombinedValidator>,
    recursion_guard: &mut RecursionGuard,
    fuel: u64,
    Ghost(measure): Ghost<CombinedValidator>,
) -> (r: ValResult<OutputValue>)
    requires
        input.wf(),
        validator_id < slots@.len(),
        slots_wf(slots@),
    ensures
        final(recursion_guard)@ == old(recursion_guard)@,
        result_matches(
            r,
            if fuel == 0 {
                Err(seq![leaf_err(ErrorKind::RecursionLoop, input.sp_error_value())])
            } else {
                match input.sp_identity() {
                    Some(pid) => if old(recursion_guard)@.contains(pid) {
                        Err(seq![leaf_err(ErrorKind::RecursionLoop, input.sp_error_value())])
                    } else {
                        spec_validate(
                            slots@[validator_id as int],
                            slots@,
                            input,
                            extra.strict,
                            old(recursion_guard)@.push(pid),
                            (fuel - 1) as nat,
                        )
                    },
                    None => spec_validate(
                        slots@[validator_id as int],
                        slots@,
                        input,
                        extra.strict,
                        old(recursion_guard)@,
                        (fuel - 1) as nat,
                    ),
                }
            },
        ),
    decreases fuel, measure, 1nat, 0nat,
{
    if fuel == 0 {
        return Err(
            ValError::from_line_error(
                ValLineError::new(ErrorKind::RecursionLoop, input.as_error_value()),
            ),
        );
    }
    match input.identity() {
        Some(id) => {
            if recursion_guard.contains(id) {
                Err(
                    ValError::from_line_error(
                        ValLineError::new(ErrorKind::RecursionLoop, input.as_error_value()),
                    ),
                )
            } else {
                recursion_guard.insert(id);
                let validator = &slots[validator_id];
                let output = validator.validate(input, extra, slots, recursion_guard, fuel - 1);
                recursion_guard.remove(id);
                output
            }
        },
        None => {
            let validator = &slots[validator_id];
            validator.validate(input, extra, slots, recursion_guard, fuel - 1)
        },
    }
}

} // verus!
