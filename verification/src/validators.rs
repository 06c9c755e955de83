pub mod ints;
pub mod none;
pub mod recursive;
pub mod set;

use vstd::prelude::*;

use crate::errors::kinds::ErrorKind;
use crate::errors::line_error::{leaf_err, spec_with_prefix, ContextValueView, InputValueView,
    ValLineError, ValLineErrorView};
use crate::errors::location::LocItemView;
use crate::errors::val_error::{ValError, ValResult};
use crate::input::input_abstract::Input;
use crate::output::{OutView, OutputValue};
use crate::recursion_guard::RecursionGuard;
use crate::schema::{spec_config, spec_is_strict, Config, Schema, SchemaView};
use crate::strutil::str_eq;

pub use ints::{ConstrainedIntValidator, IntValidator};
pub use none::NoneValidator;
pub use recursive::{RecursiveContainerValidator, RecursiveRefValidator};
pub use set::SetValidator;

verus! {

/// The bound on nested recursive descents of one call; when it is spent, a
/// further recursive step reports RecursionLoop instead of descending.
pub const RECURSION_LIMIT: u64 = 255;

/// One compiled validator tree node; immutable after build.
#[derive(Debug)]
pub enum CombinedValidator {
    Null(NoneValidator),
    Int(IntValidator),
    ConstrainedInt(ConstrainedIntValidator),
    SetOf(SetValidator),
    RecursiveContainer(RecursiveContainerValidator),
    RecursiveRef(RecursiveRefValidator),
}

/// Transient per-call configuration, threaded through every validate call.
#[derive(Debug, Clone, Copy)]
pub struct Extra {
    pub strict: bool,
}

/// Sanity of one validator against a slot table of `n` entries: slot
/// indices are in bounds, set bounds fit the context's integer type, and a
/// multiple-of constraint is nonzero.
pub open spec fn validator_wf(v: CombinedValidator, n: nat) -> bool
    decreases v,
{
    match v {
        CombinedValidator::ConstrainedInt(civ) => civ.multiple_of != Some(0i64),
        CombinedValidator::SetOf(sv) => validator_wf(*sv.item_validator, n) && (match sv.min_items {
            Some(m) => m <= i64::MAX,
            None => true,
        }) && (match sv.max_items {
            Some(m) => m <= i64::MAX,
            None => true,
        }),
        CombinedValidator::RecursiveContainer(c) => c.validator_id < n,
        CombinedValidator::RecursiveRef(r) => r.validator_id < n,
        _ => true,
    }
}

pub open spec fn slots_wf(slots: Seq<CombinedValidator>) -> bool {
    forall|i: int| 0 <= i < slots.len() ==> validator_wf(#[trigger] slots[i], slots.len())
}

/// The line error of a cardinality violation: TooShort or TooLong with the
/// collection label and the violated bound as context.
pub open spec fn set_size_err(
    kind: ErrorKind,
    ev: InputValueView,
    bound_key: Seq<char>,
    bound: int,
) -> ValLineErrorView {
    ValLineErrorView {
        kind: kind,
        location: Seq::empty(),
        message: None,
        input_value: ev,
        context: seq![
            ("type"@, ContextValueView::S("Set"@)),
            (bound_key, ContextValueView::I(bound)),
        ],
    }
}

/// What one validator yields on one input, in the given mode, under the
/// given recursion-guard state and fuel: the coerced output, or every line
/// error of the pass.
pub open spec fn spec_validate<I: Input>(
    v: CombinedValidator,
    slots: Seq<CombinedValidator>,
    input: I,
    estrict: bool,
    guard: Seq<usize>,
    fuel: nat,
) -> Result<OutView, Seq<ValLineErrorView>>
    decreases fuel, v, 0nat, 0nat,
{
    match v {
        CombinedValidator::Null(_nv) => if input.sp_is_none() {
            Ok(OutView::Null)
        } else {
            Err(seq![leaf_err(ErrorKind::NoneRequired, input.sp_error_value())])
        },
        CombinedValidator::Int(iv) => match input.sp_int(iv.strict || estrict) {
            Ok(i) => Ok(OutView::Int(i as int)),
            Err(k) => Err(seq![leaf_err(k, input.sp_error_value())]),
        },
        CombinedValidator::ConstrainedInt(civ) => ints::spec_constrained_int_result(
            civ,
            input.sp_int(civ.strict || estrict),
            input.sp_error_value(),
        ),
        CombinedValidator::SetOf(sv) => spec_validate_set(
            sv,
            slots,
            input,
            sv.strict || estrict,
            estrict,
            guard,
            fuel,
        ),
        CombinedValidator::RecursiveContainer(c) => if fuel == 0 {
            Err(seq![leaf_err(ErrorKind::RecursionLoop, input.sp_error_value())])
        } else {
            match input.sp_identity() {
                Some(pid) => if guard.contains(pid) {
                    Err(seq![leaf_err(ErrorKind::RecursionLoop, input.sp_error_value())])
                } else {
                    spec_validate(
                        slots[c.validator_id as int],
                        slots,
                        input,
                        estrict,
                        guard.push(pid),
                        (fuel - 1) as nat,
                    )
                },
                None => spec_validate(
                    slots[c.validator_id as int],
                    slots,
                    input,
                    estrict,
                    guard,
                    (fuel - 1) as nat,
                ),
            }
        },
        CombinedValidator::RecursiveRef(rr) => if fuel == 0 {
            Err(seq![leaf_err(ErrorKind::RecursionLoop, input.sp_error_value())])
        } else {
            match input.sp_identity() {
                Some(pid) => if guard.contains(pid) {
                    Err(seq![leaf_err(ErrorKind::RecursionLoop, input.sp_error_value())])
                } else {
                    spec_validate(
                        slots[rr.validator_id as int],
                        slots,
                        input,
                        estrict,
                        guard.push(pid),
                        (fuel - 1) as nat,
                    )
                },
                None => spec_validate(
                    slots[rr.validator_id as int],
                    slots,
                    input,
                    estrict,
                    guard,
                    (fuel - 1) as nat,
                ),
            }
        },
    }
}

/// The set validator's behaviour: coerce to a generic sequence in the given
/// mode, then check cardinality and validate the elements.
pub open spec fn spec_validate_set<I: Input>(
    sv: SetValidator,
    slots: Seq<CombinedValidator>,
    input: I,
    coerce_strict: bool,
    estrict: bool,
    guard: Seq<usize>,
    fuel: nat,
) -> Result<OutView, Seq<ValLineErrorView>>
    decreases fuel, *sv.item_validator, 2nat, 1nat,
{
    match input.sp_set(coerce_strict) {
        Err(k) => Err(seq![leaf_err(k, input.sp_error_value())]),
        Ok(elems) => spec_set_checks(sv, slots, elems, input.sp_error_value(), estrict, guard, fuel),
    }
}

/// Cardinality checks, then per-element validation with index-prefixed
/// error locations and output deduplication by equality.
pub open spec fn spec_set_checks<I: Input>(
    sv: SetValidator,
    slots: Seq<CombinedValidator>,
    elems: Seq<I>,
    ev: InputValueView,
    estrict: bool,
    guard: Seq<usize>,
    fuel: nat,
) -> Result<OutView, Seq<ValLineErrorView>>
    decreases fuel, *sv.item_validator, 2nat, 0nat,
{
    if sv.min_items is Some && elems.len() < sv.min_items.unwrap() {
        Err(
            seq![
                set_size_err(ErrorKind::TooShort, ev, "min_length"@, sv.min_items.unwrap() as int),
            ],
        )
    } else if sv.max_items is Some && elems.len() > sv.max_items.unwrap() {
        Err(
            seq![
                set_size_err(ErrorKind::TooLong, ev, "max_length"@, sv.max_items.unwrap() as int),
            ],
        )
    } else {
        let r = spec_validate_elements(
            *sv.item_validator,
            slots,
            elems,
            0,
            estrict,
            guard,
            fuel,
            Seq::empty(),
            Seq::empty(),
        );
        if r.1.len() == 0 {
            Ok(OutView::SetOf(r.0))
        } else {
            Err(r.1)
        }
    }
}

/// Validates `elems[i..]` against the item validator, accumulating
/// deduplicated successes in `outs` and index-tagged failures in `errs`.
/// No element short-circuits the rest.
pub open spec fn spec_validate_elements<I: Input>(
    itemv: CombinedValidator,
    slots: Seq<CombinedValidator>,
    elems: Seq<I>,
    i: int,
    estrict: bool,
    guard: Seq<usize>,
    fuel: nat,
    outs: Seq<OutView>,
    errs: Seq<ValLineErrorView>,
) -> (Seq<OutView>, Seq<ValLineErrorView>)
    decreases fuel, itemv, 1nat, elems.len() - i,
{
    if i < 0 || i >= elems.len() {
        (outs, errs)
    } else {
        match spec_validate(itemv, slots, elems[i], estrict, guard, fuel) {
            Ok(o) => spec_validate_elements(
                itemv,
                slots,
                elems,
                i + 1,
                estrict,
                guard,
                fuel,
                if outs.contains(o) {
                    outs
                } else {
                    outs.push(o)
                },
                errs,
            ),
            Err(es) => spec_validate_elements(
                itemv,
                slots,
                elems,
                i + 1,
                estrict,
                guard,
                fuel,
                outs,
                errs + prefix_errs(es, i),
            ),
        }
    }
}

/// The views of a sequence of line errors, in order.
pub open spec fn errs_view(es: Seq<ValLineError>) -> Seq<ValLineErrorView> {
    es.map_values(|x: ValLineError| x@)
}

/// The same errors, one frame further from the root: index `i` prefixed to
/// every location.
pub open spec fn prefix_errs(es: Seq<ValLineErrorView>, i: int) -> Seq<ValLineErrorView> {
    es.map_values(|e: ValLineErrorView| spec_with_prefix(e, LocItemView::Index(i)))
}

/// Holds when the executable result agrees with the specified one: the same
/// output view on success, the same line errors in the same order on
/// failure.
pub open spec fn result_matches(
    r: ValResult<OutputValue>,
    sp: Result<OutView, Seq<ValLineErrorView>>,
) -> bool {
    match r {
        Ok(out) => sp == Ok::<OutView, Seq<ValLineErrorView>>(out@),
        Err(e) => match e {
            ValError::LineErrors(es) => sp == Err::<OutView, Seq<ValLineErrorView>>(
                errs_view(es@),
            ),
            ValError::InternalErr(_) => false,
        },
    }
}

/// The display name of a validator tree.
pub open spec fn spec_name(v: CombinedValidator) -> Seq<char>
    decreases v,
{
    match v {
        CombinedValidator::Null(_) => "none"@,
        CombinedValidator::Int(_) => "int"@,
        CombinedValidator::ConstrainedInt(_) => "constrained-int"@,
        CombinedValidator::SetOf(sv) => "set["@ + spec_name(*sv.item_validator) + "]"@,
        CombinedValidator::RecursiveContainer(_) => "recursive-container"@,
        CombinedValidator::RecursiveRef(_) => "recursive-ref"@,
    }
}

impl CombinedValidator {
    /// Validates one input against this node: dispatch on the tagged
    /// variant.  The guard is restored on every exit path.
    pub fn validate<I: Input + Copy>(
        &self,
        input: I,
        extra: &Extra,
        slots: &Vec<CombinedValidator>,
        recursion_guard: &mut RecursionGuard,
        fuel: u64,
    ) -> (r: ValResult<OutputValue>)
        requires
            input.wf(),
            validator_wf(*self, slots@.len()),
            slots_wf(slots@),
        ensures
            final(recursion_guard)@ == old(recursion_guard)@,
            result_matches(
                r,
                spec_validate(*self, slots@, input, extra.strict, old(recursion_guard)@, fuel as nat),
            ),
        decreases fuel, *self, 3nat, 0nat,
    {
        match self {
            CombinedValidator::Null(v) => v.validate(input, extra, slots, recursion_guard, fuel),
            CombinedValidator::Int(v) => v.validate(input, extra, slots, recursion_guard, fuel),
            CombinedValidator::ConstrainedInt(v) => v.validate(
                input,
                extra,
                slots,
                recursion_guard,
                fuel,
            ),
            CombinedValidator::SetOf(v) => v.validate(input, extra, slots, recursion_guard, fuel),
            CombinedValidator::RecursiveContainer(v) => v.validate(
                input,
                extra,
                slots,
                recursion_guard,
                fuel,
            ),
            CombinedValidator::RecursiveRef(v) => v.validate(
                input,
                extra,
                slots,
                recursion_guard,
                fuel,
            ),
        }
    }

    pub fn get_name(&self) -> (r: String)
        ensures
            r@ == spec_name(*self),
        decreases *self, 1nat,
    {
        match self {
            CombinedValidator::Null(v) => v.get_name(),
            CombinedValidator::Int(v) => String::from_str(v.get_name()),
            CombinedValidator::ConstrainedInt(v) => String::from_str(v.get_name()),
            CombinedValidator::SetOf(v) => v.get_name(),
            CombinedValidator::RecursiveContainer(v) => v.get_name(),
            CombinedValidator::RecursiveRef(v) => v.get_name(),
        }
    }
}

/// A build-time structural error; the whole build aborts with it.
#[derive(Debug)]
pub struct BuildError {
    pub message: String,
}

impl View for BuildError {
    type V = Seq<char>;

    open spec fn view(&self) -> Seq<char> {
        self.message@
    }
}

/// The first slot whose name is `n`, if one is reserved.
pub open spec fn spec_find_slot(
    ctx: Seq<(Seq<char>, Option<CombinedValidator>)>,
    n: Seq<char>,
) -> Option<int>
    decreases ctx.len(),
{
    if ctx.len() == 0 {
        None
    } else if ctx.first().0 == n {
        Some(0)
    } else {
        match spec_find_slot(ctx.drop_first(), n) {
            Some(i) => Some(i + 1),
            None => None,
        }
    }
}

/// The name-to-slot table of one build: reserved while a named node is
/// being compiled, filled once its validator exists.
#[derive(Debug)]
pub struct BuildContext {
    slots: Vec<(String, Option<CombinedValidator>)>,
}

impl View for BuildContext {
    type V = Seq<(Seq<char>, Option<CombinedValidator>)>;

    closed spec fn view(&self) -> Seq<(Seq<char>, Option<CombinedValidator>)> {
        self.slots@.map_values(|p: (String, Option<CombinedValidator>)| (p.0@, p.1))
    }
}

impl BuildContext {
    pub fn new() -> (r: BuildContext)
        ensures
            r@ == Seq::<(Seq<char>, Option<CombinedValidator>)>::empty(),
    {
        let r = BuildContext { slots: Vec::new() };
        proof {
            assert(r@ =~= Seq::<(Seq<char>, Option<CombinedValidator>)>::empty());
        }
        r
    }

    /// The first slot index reserved under `name`, or a structural error
    /// naming the unresolved reference.
    pub fn find_slot_id(&self, name: &str) -> (r: Result<usize, BuildError>)
        ensures
            match r {
                Ok(id) => spec_find_slot(self@, name@) == Some(id as int),
                Err(e) => spec_find_slot(self@, name@) is None && e@ == "unresolved schema reference: "@
                    + name@,
            },
    {
        let mut i: usize = 0;
        proof {
            assert(self@.skip(0) =~= self@);
        }
        while i < self.slots.len()
            invariant
                0 <= i <= self.slots.len(),
                self@.len() == self.slots@.len(),
                forall|j: int| 0 <= j < i ==> self@[j].0 != name@,
                spec_find_slot(self@, name@) == (match spec_find_slot(
                    self@.skip(i as int),
                    name@,
                ) {
                    Some(j) => Some(i + j),
                    None => None::<int>,
                }),
            decreases self.slots.len() - i,
        {
            proof {
                assert(self@[i as int].0 == self.slots@[i as int].0@);
            }
            if str_eq(self.slots[i].0.as_str(), name) {
                proof {
                    assert(self@.skip(i as int).first() == self@[i as int]);
                }
                return Ok(i);
            }
            proof {
                lemma_find_slot_step(self@, name@, i as int);
            }
            i += 1;
        }
        proof {
            assert(self@.skip(self@.len() as int) =~= Seq::<
                (Seq<char>, Option<CombinedValidator>),
            >::empty());
        }
        Err(
            BuildError {
                message: String::from_str("unresolved schema reference: ").concat(name),
            },
        )
    }

    /// Reserves a fresh slot under `name`; a second reservation under the
    /// same name is a structural error.
    pub fn reserve_slot(&mut self, name: String) -> (r: Result<usize, BuildError>)
        ensures
            match r {
                Ok(id) => spec_find_slot(old(self)@, name@) is None && id == old(self)@.len()
                    && final(self)@ == old(self)@.push((name@, None::<CombinedValidator>)),
                Err(e) => spec_find_slot(old(self)@, name@) is Some && final(self)@ == old(self)@ && e@
                    == "duplicate recursive reference name: "@ + name@,
            },
    {
        match self.find_slot_id(name.as_str()) {
            Ok(_) => Err(
                BuildError {
                    message: String::from_str("duplicate recursive reference name: ").concat(
                        name.as_str(),
                    ),
                },
            ),
            Err(_) => {
                let id = self.slots.len();
                self.slots.push((name, None));
                proof {
                    assert(self@ =~= old(self)@.push(
                        (self.slots@.last().0@, None::<CombinedValidator>),
                    ));
                }
                Ok(id)
            },
        }
    }

    /// Stores the compiled validator of a reserved slot.
    pub fn fill_slot(&mut self, id: usize, v: CombinedValidator)
        requires
            id < old(self)@.len(),
        ensures
            final(self)@ == old(self)@.update(id as int, (old(self)@[id as int].0, Some(v))),
    {
        let name = self.slots[id].0.clone();
        self.slots[id] = (name, Some(v));
        proof {
            assert(self@ =~= old(self)@.update(id as int, (old(self)@[id as int].0, Some(v))));
        }
    }

    /// The finished slot table, leaving this context empty; a slot still
    /// unfilled is a structural error.
    pub fn into_slots(&mut self) -> (r: Result<Vec<CombinedValidator>, BuildError>)
        ensures
            match r {
                Ok(v) => spec_filled_slots(old(self)@) == Some(v@),
                Err(e) => spec_filled_slots(old(self)@) is None && e@
                    == "unfilled recursion slot"@,
            },
    {
        let ghost ctx = old(self)@;
        let mut out: Vec<CombinedValidator> = Vec::new();
        let ghost n = ctx.len();
        while self.slots.len() > 0
            invariant
                out@.len() + self@.len() == n,
                n == ctx.len(),
                ctx == old(self)@,
                self@.len() == self.slots@.len(),
                forall|j: int| 0 <= j < self@.len() ==> ctx[out@.len() + j] == #[trigger] self@[j],
                forall|j: int| 0 <= j < out@.len() ==> ctx[j].1 == Some(#[trigger] out@[j]),
            decreases self.slots.len(),
        {
            let ghost before = self@;
            let ghost done = out@.len() as int;
            let p = self.slots.remove(0);
            proof {
                assert((p.0@, p.1) == before[0]);
                assert(self@ =~= before.drop_first());
                assert(forall|j: int|
                    0 <= j < self@.len() ==> #[trigger] self@[j] == before[j + 1]);
            }
            match p.1 {
                Some(v) => {
                    out.push(v);
                    proof {
                        assert(ctx[done].1 == Some(out@.last()));
                    }
                },
                None => {
                    proof {
                        assert(ctx[done].1 is None);
                        assert(spec_filled_slots(ctx) is None);
                    }
                    return Err(
                        BuildError { message: String::from_str("unfilled recursion slot") },
                    );
                },
            }
        }
        proof {
            assert forall|j: int| 0 <= j < ctx.len() implies (#[trigger] ctx[j].1) is Some by {
                assert(ctx[j].1 == Some(out@[j]));
            }
            let filled = spec_filled_slots(ctx);
            assert(filled is Some);
            assert forall|j: int| 0 <= j < ctx.len() implies filled.unwrap()[j] == out@[j] by {
                assert(ctx[j].1 == Some(out@[j]));
            }
            assert(out@ =~= filled.unwrap());
        }
        Ok(out)
    }
}

proof fn lemma_find_slot_step(
    ctx: Seq<(Seq<char>, Option<CombinedValidator>)>,
    n: Seq<char>,
    i: int,
)
    requires
        0 <= i < ctx.len(),
        ctx[i].0 != n,
    ensures
        spec_find_slot(ctx.skip(i), n) == (match spec_find_slot(ctx.skip(i + 1), n) {
            Some(j) => Some(j + 1),
            None => None::<int>,
        }),
{
    assert(ctx.skip(i).first() == ctx[i]);
    assert(ctx.skip(i).drop_first() =~= ctx.skip(i + 1));
}

/// The validators of a fully filled slot table, in slot order; `None` when
/// a slot is still unfilled.
pub open spec fn spec_filled_slots(
    ctx: Seq<(Seq<char>, Option<CombinedValidator>)>,
) -> Option<Seq<CombinedValidator>> {
    if forall|j: int| 0 <= j < ctx.len() ==> (#[trigger] ctx[j].1) is Some {
        Some(Seq::new(ctx.len(), |j: int| ctx[j].1.unwrap()))
    } else {
        None
    }
}

/// The compiled form of one schema node: a recursion slot is reserved and
/// filled around the node's own compilation when the node is named, so a
/// ref inside it can already resolve the name.
pub open spec fn spec_build_validator(
    s: SchemaView,
    c: Option<Config>,
    ctx: Seq<(Seq<char>, Option<CombinedValidator>)>,
) -> Result<(CombinedValidator, Seq<(Seq<char>, Option<CombinedValidator>)>), Seq<char>>
    decreases s, 2nat,
{
    match s.name {
        Some(n) => match spec_find_slot(ctx, n) {
            Some(_) => Err("duplicate recursive reference name: "@ + n),
            None => {
                let id = ctx.len() as int;
                match spec_build_concrete(s, c, ctx.push((n, None))) {
                    Ok((v, ctx2)) => Ok(
                        (
                            CombinedValidator::RecursiveContainer(
                                RecursiveContainerValidator { validator_id: ctx.len() as usize },
                            ),
                            ctx2.update(id, (ctx2[id].0, Some(v))),
                        ),
                    ),
                    Err(m) => Err(m),
                }
            },
        },
        None => spec_build_concrete(s, c, ctx),
    }
}

/// Dispatch on the required type discriminator; an unsupported
/// discriminator fails the whole build immediately.
pub open spec fn spec_build_concrete(
    s: SchemaView,
    c: Option<Config>,
    ctx: Seq<(Seq<char>, Option<CombinedValidator>)>,
) -> Result<(CombinedValidator, Seq<(Seq<char>, Option<CombinedValidator>)>), Seq<char>>
    decreases s, 1nat,
{
    if s.schema_type == "none"@ {
        Ok((CombinedValidator::Null(NoneValidator), ctx))
    } else if s.schema_type == "int"@ {
        match ints::spec_build_int(s, c) {
            Ok(v) => Ok((v, ctx)),
            Err(m) => Err(m),
        }
    } else if s.schema_type == "set"@ {
        spec_build_set(s, c, ctx)
    } else if s.schema_type == "recursive-ref"@ {
        match recursive::spec_build_ref(s, ctx) {
            Ok(v) => Ok((v, ctx)),
            Err(m) => Err(m),
        }
    } else {
        Err("unsupported schema type: "@ + s.schema_type)
    }
}

/// The compiled form of a `set` schema node: its required item sub-schema
/// compiles first, threading the slot table through.
pub open spec fn spec_build_set(
    s: SchemaView,
    c: Option<Config>,
    ctx: Seq<(Seq<char>, Option<CombinedValidator>)>,
) -> Result<(CombinedValidator, Seq<(Seq<char>, Option<CombinedValidator>)>), Seq<char>>
    decreases s, 0nat,
{
    match s.items {
        None => Err("set schema requires an items schema"@),
        Some(item_schema) => {
            if !((match s.min_items {
                Some(m) => m <= i64::MAX,
                None => true,
            }) && (match s.max_items {
                Some(m) => m <= i64::MAX,
                None => true,
            })) {
                Err("set cardinality bounds must fit a 64-bit signed integer"@)
            } else {
                match spec_build_validator(*item_schema, c, ctx) {
                    Ok((iv, ctx2)) => Ok(
                        (
                            CombinedValidator::SetOf(
                                SetValidator {
                                    strict: spec_is_strict(s, c),
                                    item_validator: Box::new(iv),
                                    min_items: s.min_items,
                                    max_items: s.max_items,
                                },
                            ),
                            ctx2,
                        ),
                    ),
                    Err(m) => Err(m),
                }
            }
        },
    }
}

/// Compiles one schema node, reserving and filling a recursion slot when
/// the node is named.
pub fn build_validator(
    schema: &Schema,
    config: Option<&Config>,
    build_context: &mut BuildContext,
) -> (r: Result<CombinedValidator, BuildError>)
    ensures
        match r {
            Ok(v) => spec_build_validator(schema@, spec_config(config), old(build_context)@)
                == Ok::<
                (CombinedValidator, Seq<(Seq<char>, Option<CombinedValidator>)>),
                Seq<char>,
            >((v, final(build_context)@)) && old(build_context)@.len() <= final(build_context)@.len(),
            Err(e) => spec_build_validator(schema@, spec_config(config), old(build_context)@)
                == Err::<
                (CombinedValidator, Seq<(Seq<char>, Option<CombinedValidator>)>),
                Seq<char>,
            >(e@),
        },
    decreases *schema, 2nat,
{
    match &schema.name {
        Some(n) => {
            let id = match build_context.reserve_slot(n.clone()) {
                Ok(id) => id,
                Err(e) => {
                    return Err(e);
                },
            };
            match build_concrete(schema, config, build_context) {
                Ok(v) => {
                    build_context.fill_slot(id, v);
                    Ok(RecursiveContainerValidator::create(id))
                },
                Err(e) => Err(e),
            }
        },
        None => build_concrete(schema, config, build_context),
    }
}

fn build_concrete(
    schema: &Schema,
    config: Option<&Config>,
    build_context: &mut BuildContext,
) -> (r: Result<CombinedValidator, BuildError>)
    ensures
        match r {
            Ok(v) => spec_build_concrete(schema@, spec_config(config), old(build_context)@)
                == Ok::<
                (CombinedValidator, Seq<(Seq<char>, Option<CombinedValidator>)>),
                Seq<char>,
            >((v, final(build_context)@)) && old(build_context)@.len() <= final(build_context)@.len(),
            Err(e) => spec_build_concrete(schema@, spec_config(config), old(build_context)@)
                == Err::<
                (CombinedValidator, Seq<(Seq<char>, Option<CombinedValidator>)>),
                Seq<char>,
            >(e@),
        },
    decreases *schema, 1nat,
{
    let t = &schema.schema_type;
    if str_eq(t.as_str(), "none") {
        NoneValidator::build(schema, config, build_context)
    } else if str_eq(t.as_str(), "int") {
        IntValidator::build(schema, config, build_context)
    } else if str_eq(t.as_str(), "set") {
        SetValidator::build(schema, config, build_context)
    } else if str_eq(t.as_str(), "recursive-ref") {
        RecursiveRefValidator::build(schema, config, build_context)
    } else {
        Err(
            BuildError {
                message: String::from_str("unsupported schema type: ").concat(t.as_str()),
            },
        )
    }
}

/// Compiling a whole schema: one depth-first walk from an empty slot
/// table; on success every reserved slot is filled.
pub open spec fn spec_build_schema(s: SchemaView, c: Option<Config>) -> Result<
    (CombinedValidator, Seq<CombinedValidator>),
    Seq<char>,
> {
    match spec_build_validator(s, c, Seq::empty()) {
        Ok((v, ctx)) => match spec_filled_slots(ctx) {
            Some(slots) => Ok((v, slots)),
            None => Err("unfilled recursion slot"@),
        },
        Err(m) => Err(m),
    }
}

/// Every filled slot of the table holds a validator that is well formed
/// against the table's current length.
pub open spec fn ctx_wf(ctx: Seq<(Seq<char>, Option<CombinedValidator>)>) -> bool {
    forall|j: int|
        0 <= j < ctx.len() ==> match (#[trigger] ctx[j]).1 {
            Some(v) => validator_wf(v, ctx.len()),
            None => true,
        }
}

proof fn lemma_validator_wf_mono(v: CombinedValidator, n: nat, m: nat)
    requires
        validator_wf(v, n),
        n <= m,
    ensures
        validator_wf(v, m),
    decreases v,
{
    match v {
        CombinedValidator::SetOf(sv) => {
            lemma_validator_wf_mono(*sv.item_validator, n, m);
        },
        _ => {},
    }
}

proof fn lemma_find_slot_in_bounds(
    ctx: Seq<(Seq<char>, Option<CombinedValidator>)>,
    n: Seq<char>,
)
    ensures
        match spec_find_slot(ctx, n) {
            Some(i) => 0 <= i < ctx.len(),
            None => true,
        },
    decreases ctx.len(),
{
    if ctx.len() > 0 && ctx.first().0 != n {
        lemma_find_slot_in_bounds(ctx.drop_first(), n);
    }
}

/// Building from a well-formed slot table keeps the table well formed,
/// never shrinks it, and yields a validator that is well formed against
/// the final table.
proof fn lemma_build_validator_wf(
    s: SchemaView,
    c: Option<Config>,
    ctx: Seq<(Seq<char>, Option<CombinedValidator>)>,
)
    requires
        ctx_wf(ctx),
    ensures
        match spec_build_validator(s, c, ctx) {
            Ok((v, ctx2)) => ctx.len() <= ctx2.len() && ctx_wf(ctx2) && validator_wf(
                v,
                ctx2.len(),
            ),
            Err(_) => true,
        },
    decreases s, 2nat,
{
    match s.name {
        Some(n) => {
            if spec_find_slot(ctx, n) is None {
                let ctx1 = ctx.push((n, None));
                assert(ctx_wf(ctx1)) by {
                    assert forall|j: int|
                        0 <= j < ctx1.len() implies match (#[trigger] ctx1[j]).1 {
                        Some(v) => validator_wf(v, ctx1.len()),
                        None => true,
                    } by {
                        if j < ctx.len() {
                            assert(ctx1[j] == ctx[j]);
                            match ctx[j].1 {
                                Some(v) => {
                                    lemma_validator_wf_mono(v, ctx.len(), ctx1.len());
                                },
                                None => {},
                            }
                        }
                    }
                }
                lemma_build_concrete_wf(s, c, ctx1);
                match spec_build_concrete(s, c, ctx1) {
                    Ok((v, ctx2)) => {
                        let id = ctx.len() as int;
                        let ctx3 = ctx2.update(id, (ctx2[id].0, Some(v)));
                        assert(ctx_wf(ctx3)) by {
                            assert forall|j: int|
                                0 <= j < ctx3.len() implies match (#[trigger] ctx3[j]).1 {
                                Some(w) => validator_wf(w, ctx3.len()),
                                None => true,
                            } by {
                                if j == id {
                                    assert(ctx3[j].1 == Some(v));
                                } else {
                                    assert(ctx3[j] == ctx2[j]);
                                }
                            }
                        }
                    },
                    Err(_) => {},
                }
            }
        },
        None => {
            lemma_build_concrete_wf(s, c, ctx);
        },
    }
}

proof fn lemma_build_concrete_wf(
    s: SchemaView,
    c: Option<Config>,
    ctx: Seq<(Seq<char>, Option<CombinedValidator>)>,
)
    requires
        ctx_wf(ctx),
    ensures
        match spec_build_concrete(s, c, ctx) {
            Ok((v, ctx2)) => ctx.len() <= ctx2.len() && ctx_wf(ctx2) && validator_wf(
                v,
                ctx2.len(),
            ),
            Err(_) => true,
        },
    decreases s, 1nat,
{
    if s.schema_type == "int"@ {
        match ints::spec_build_int(s, c) {
            Ok(v) => {
                assert(validator_wf(v, ctx.len()));
            },
            Err(_) => {},
        }
    } else if s.schema_type == "set"@ {
        lemma_build_set_wf(s, c, ctx);
    } else if s.schema_type == "recursive-ref"@ {
        match s.schema_ref {
            Some(n) => {
                lemma_find_slot_in_bounds(ctx, n);
            },
            None => {},
        }
    }
}

proof fn lemma_build_set_wf(
    s: SchemaView,
    c: Option<Config>,
    ctx: Seq<(Seq<char>, Option<CombinedValidator>)>,
)
    requires
        ctx_wf(ctx),
    ensures
        match spec_build_set(s, c, ctx) {
            Ok((v, ctx2)) => ctx.len() <= ctx2.len() && ctx_wf(ctx2) && validator_wf(
                v,
                ctx2.len(),
            ),
            Err(_) => true,
        },
    decreases s, 0nat,
{
    match s.items {
        Some(item_schema) => {
            lemma_build_validator_wf(*item_schema, c, ctx);
        },
        None => {},
    }
}

/// The compiled, immutable validator of one whole schema: the root
/// validator and the slot table it resolves recursive references through.
#[derive(Debug)]
pub struct SchemaValidator {
    pub validator: CombinedValidator,
    pub slots: Vec<CombinedValidator>,
}

impl SchemaValidator {
    /// The root validator and every slot are well formed against the slot
    /// table.
    pub open spec fn wf(self) -> bool {
        validator_wf(self.validator, self.slots@.len()) && slots_wf(self.slots@)
    }

    /// Compiles a schema; a structural problem (unsupported discriminator,
    /// unresolved reference, malformed bound) aborts the whole build.
    pub fn build(schema: &Schema, config: Option<&Config>) -> (r: Result<
        SchemaValidator,
        BuildError,
    >)
        ensures
            match r {
                Ok(sv) => spec_build_schema(schema@, spec_config(config)) == Ok::<
                    (CombinedValidator, Seq<CombinedValidator>),
                    Seq<char>,
                >((sv.validator, sv.slots@)) && sv.wf(),
                Err(e) => spec_build_schema(schema@, spec_config(config)) == Err::<
                    (CombinedValidator, Seq<CombinedValidator>),
                    Seq<char>,
                >(e@),
            },
    {
        let mut build_context = BuildContext::new();
        proof {
            assert(ctx_wf(build_context@));
        }
        let validator = match build_validator(schema, config, &mut build_context) {
            Ok(v) => v,
            Err(e) => {
                return Err(e);
            },
        };
        proof {
            lemma_build_validator_wf(schema@, spec_config(config), Seq::empty());
        }
        let ghost ctx = build_context@;
        match build_context.into_slots() {
            Ok(slots) => {
                proof {
                    let filled = spec_filled_slots(ctx);
                    assert(filled == Some(slots@));
                    assert(slots@ == filled.unwrap());
                    assert(slots@.len() == ctx.len());
                    assert(ctx_wf(ctx) && validator_wf(validator, ctx.len()));
                    assert(slots_wf(slots@)) by {
                        assert forall|j: int|
                            0 <= j < slots@.len() implies validator_wf(
                            #[trigger] slots@[j],
                            slots@.len(),
                        ) by {
                            assert(ctx[j].1 == Some(slots@[j]));
                            assert(ctx_wf(ctx));
                        }
                    }
                }
                Ok(SchemaValidator { validator, slots })
            },
            Err(e) => Err(e),
        }
    }

    /// Validates one input value against the compiled schema.  Each call
    /// owns a fresh recursion guard.
    pub fn validate<I: Input + Copy>(&self, input: I, strict: bool) -> (r: ValResult<OutputValue>)
        requires
            self.wf(),
            input.wf(),
        ensures
            result_matches(
                r,
                spec_validate(
                    self.validator,
                    self.slots@,
                    input,
                    strict,
                    Seq::<usize>::empty(),
                    RECURSION_LIMIT as nat,
                ),
            ),
    {
        let mut guard = RecursionGuard::new();
        let extra = Extra { strict };
        self.validator.validate(input, &extra, &self.slots, &mut guard, RECURSION_LIMIT)
    }
}

} // verus!
