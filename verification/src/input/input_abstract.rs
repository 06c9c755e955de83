//! The capability contract every input representation must satisfy.
//!
//! Every supported kind has a strict coercion (exact kind only) and a lax
//! coercion (best-effort conversion); `validate_*` picks one from a bool.
//! Each capability is pinned to a specification function of the
//! implementation, so the validators' contracts carry through any adapter.
use vstd::prelude::*;

use crate::errors::kinds::ErrorKind;
use crate::errors::line_error::{leaf_err, InputValue, InputValueView, ValLineError};
use crate::errors::location::{LocItem, LocItemView};

verus! {

/// Holds when a coercion result `r` matches its specification `sp`: the
/// coerced value on success, and on failure one leaf line error of the
/// specified kind, carrying the input's error snapshot `ev`.
pub open spec fn coerce_post<T: View>(
    r: Result<T, ValLineError>,
    sp: Result<T::V, ErrorKind>,
    ev: InputValueView,
) -> bool {
    match r {
        Ok(v) => sp == Ok::<T::V, ErrorKind>(v@),
        Err(e) => sp matches Err(k) && e@ == leaf_err(k, ev),
    }
}

/// As `coerce_post`, for coercions that yield the element values of a
/// generic sequence view.
pub open spec fn seq_post<T>(
    r: Result<Vec<T>, ValLineError>,
    sp: Result<Seq<T>, ErrorKind>,
    ev: InputValueView,
) -> bool {
    match r {
        Ok(els) => sp == Ok::<Seq<T>, ErrorKind>(els@),
        Err(e) => sp matches Err(k) && e@ == leaf_err(k, ev),
    }
}

/// The capability contract of an input value under validation.
pub trait Input: Sized {
    /// Well-formedness of the value (for representations that index into a
    /// backing store).
    spec fn wf(&self) -> bool;

    /// The stable reference identity of the value, for representations
    /// that have one; used by the recursion guard.
    spec fn sp_identity(&self) -> Option<usize>;

    spec fn sp_is_none(&self) -> bool;

    spec fn sp_loc_item(&self) -> LocItemView;

    spec fn sp_error_value(&self) -> InputValueView;

    /// What the string coercion of this value yields in the given mode.
    spec fn sp_str(&self, strict: bool) -> Result<Seq<char>, ErrorKind>;

    spec fn sp_bool(&self, strict: bool) -> Result<bool, ErrorKind>;

    spec fn sp_int(&self, strict: bool) -> Result<i64, ErrorKind>;

    /// The element values of the list coercion in the given mode.
    spec fn sp_list(&self, strict: bool) -> Result<Seq<Self>, ErrorKind>;

    /// The element values of the set coercion in the given mode.
    spec fn sp_set(&self, strict: bool) -> Result<Seq<Self>, ErrorKind>;

    fn is_none(&self) -> (r: bool)
        requires
            self.wf(),
        ensures
            r == self.sp_is_none(),
    ;

    fn identity(&self) -> (r: Option<usize>)
        requires
            self.wf(),
        ensures
            r == self.sp_identity(),
    ;

    fn as_loc_item(&self) -> (r: LocItem)
        requires
            self.wf(),
        ensures
            r@ == self.sp_loc_item(),
    ;

    fn as_error_value(&self) -> (r: InputValue)
        requires
            self.wf(),
        ensures
            r@ == self.sp_error_value(),
    ;

    fn strict_str(&self) -> (r: Result<String, ValLineError>)
        requires
            self.wf(),
        ensures
            coerce_post(r, self.sp_str(true), self.sp_error_value()),
    ;

    fn lax_str(&self) -> (r: Result<String, ValLineError>)
        requires
            self.wf(),
        ensures
            coerce_post(r, self.sp_str(false), self.sp_error_value()),
    ;

    fn validate_str(&self, strict: bool) -> (r: Result<String, ValLineError>)
        requires
            self.wf(),
        ensures
            coerce_post(r, self.sp_str(strict), self.sp_error_value()),
    {
        if strict {
            self.strict_str()
        } else {
            self.lax_str()
        }
    }

    fn strict_bool(&self) -> (r: Result<bool, ValLineError>)
        requires
            self.wf(),
        ensures
            coerce_post(r, self.sp_bool(true), self.sp_error_value()),
    ;

    fn lax_bool(&self) -> (r: Result<bool, ValLineError>)
        requires
            self.wf(),
        ensures
            coerce_post(r, self.sp_bool(false), self.sp_error_value()),
    ;

    fn validate_bool(&self, strict: bool) -> (r: Result<bool, ValLineError>)
        requires
            self.wf(),
        ensures
            coerce_post(r, self.sp_bool(strict), self.sp_error_value()),
    {
        if strict {
            self.strict_bool()
        } else {
            self.lax_bool()
        }
    }

    fn strict_int(&self) -> (r: Result<i64, ValLineError>)
        requires
            self.wf(),
        ensures
            coerce_post(r, self.sp_int(true), self.sp_error_value()),
    ;

    fn lax_int(&self) -> (r: Result<i64, ValLineError>)
        requires
            self.wf(),
        ensures
            coerce_post(r, self.sp_int(false), self.sp_error_value()),
    ;

    fn validate_int(&self, strict: bool) -> (r: Result<i64, ValLineError>)
        requires
            self.wf(),
        ensures
            coerce_post(r, self.sp_int(strict), self.sp_error_value()),
    {
        if strict {
            self.strict_int()
        } else {
            self.lax_int()
        }
    }

    fn strict_list(&self) -> (r: Result<Vec<Self>, ValLineError>)
        requires
            self.wf(),
        ensures
            seq_post(r, self.sp_list(true), self.sp_error_value()),
            r matches Ok(els) ==> forall|i: int|
                0 <= i < els@.len() ==> (#[trigger] els@[i]).wf(),
    ;

    fn lax_list(&self) -> (r: Result<Vec<Self>, ValLineError>)
        requires
            self.wf(),
        ensures
            seq_post(r, self.sp_list(false), self.sp_error_value()),
            r matches Ok(els) ==> forall|i: int|
                0 <= i < els@.len() ==> (#[trigger] els@[i]).wf(),
    ;

    fn validate_list(&self, strict: bool) -> (r: Result<Vec<Self>, ValLineError>)
        requires
            self.wf(),
        ensures
            seq_post(r, self.sp_list(strict), self.sp_error_value()),
            r matches Ok(els) ==> forall|i: int|
                0 <= i < els@.len() ==> (#[trigger] els@[i]).wf(),
    {
        if strict {
            self.strict_list()
        } else {
            self.lax_list()
        }
    }

    fn strict_set(&self) -> (r: Result<Vec<Self>, ValLineError>)
        requires
            self.wf(),
        ensures
            seq_post(r, self.sp_set(true), self.sp_error_value()),
            r matches Ok(els) ==> forall|i: int|
                0 <= i < els@.len() ==> (#[trigger] els@[i]).wf(),
    ;

    fn lax_set(&self) -> (r: Result<Vec<Self>, ValLineError>)
        requires
            self.wf(),
        ensures
            seq_post(r, self.sp_set(false), self.sp_error_value()),
            r matches Ok(els) ==> forall|i: int|
                0 <= i < els@.len() ==> (#[trigger] els@[i]).wf(),
    ;

    fn validate_set(&self, strict: bool) -> (r: Result<Vec<Self>, ValLineError>)
        requires
            self.wf(),
        ensures
            seq_post(r, self.sp_set(strict), self.sp_error_value()),
            r matches Ok(els) ==> forall|i: int|
                0 <= i < els@.len() ==> (#[trigger] els@[i]).wf(),
    {
        if strict {
            self.strict_set()
        } else {
            self.lax_set()
        }
    }
}

} // verus!
