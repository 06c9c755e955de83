//! The error of one whole validation call: either the ordered collection of
//! every line error found in the pass, or an internal failure of the host
//! boundary, which aborts the call and bypasses collection.
use vstd::prelude::*;

use crate::errors::line_error::{ValLineError, ValLineErrorView};

verus! {

#[derive(Debug)]
pub enum ValError {
    LineErrors(Vec<ValLineError>),
    InternalErr(String),
}

pub enum ValErrorView {
    LineErrors(Seq<ValLineErrorView>),
    InternalErr(Seq<char>),
}

impl View for ValError {
    type V = ValErrorView;

    open spec fn view(&self) -> ValErrorView {
        match self {
            ValError::LineErrors(es) => ValErrorView::LineErrors(
                es@.map_values(|e: ValLineError| e@),
            ),
            ValError::InternalErr(m) => ValErrorView::InternalErr(m@),
        }
    }
}

impl ValError {
    /// Wraps one line error, as a leaf failure does.
    pub fn from_line_error(e: ValLineError) -> (r: Self)
        ensures
            r@ == ValErrorView::LineErrors(seq![e@]),
    {
        let mut es: Vec<ValLineError> = Vec::new();
        es.push(e);
        proof {
            assert(es@.map_values(|x: ValLineError| x@) =~= seq![es@[0]@]);
        }
        ValError::LineErrors(es)
    }
}

pub type ValResult<T> = Result<T, ValError>;

} // verus!
