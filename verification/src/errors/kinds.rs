//! The closed, parameterized enumeration of validation error kinds, with the
//! message template and the default rendering context of each kind.
use vstd::prelude::*;

use crate::errors::line_error::{Context, ContextValue, ContextValueView};

verus! {

/// One category of validation failure; bound-checking kinds carry the
/// violated bound.
#[derive(Clone, Copy, Debug, PartialEq, Eq, Structural)]
pub enum ErrorKind {
    NoneRequired,
    StrType,
    StrUnicode,
    BoolType,
    BoolParsing,
    IntType,
    IntParsing,
    IntFromFloat,
    IntMultipleOf { multiple_of: i64 },
    IntLessThanEqual { le: i64 },
    IntLessThan { lt: i64 },
    IntGreaterThanEqual { ge: i64 },
    IntGreaterThan { gt: i64 },
    ListType,
    SetType,
    TooShort,
    TooLong,
    RecursionLoop,
}

impl ErrorKind {
    /// The untemplated message text of this kind; `{name}` placeholders are
    /// filled from the line error's context.
    pub open spec fn spec_template(self) -> Seq<char> {
        match self {
            ErrorKind::NoneRequired => "Input should be None"@,
            ErrorKind::StrType => "Input should be a valid string"@,
            ErrorKind::StrUnicode => "Input should be a valid string, unable to parse raw data as a unicode string"@,
            ErrorKind::BoolType => "Input should be a valid boolean"@,
            ErrorKind::BoolParsing => "Input should be a valid boolean, unable to interpret input"@,
            ErrorKind::IntType => "Input should be a valid integer"@,
            ErrorKind::IntParsing => "Input should be a valid integer, unable to parse string as an integer"@,
            ErrorKind::IntFromFloat => "Input should be a valid integer, got a number with a fractional part"@,
            ErrorKind::IntMultipleOf { multiple_of } => "Input should be a multiple of {multiple_of}"@,
            ErrorKind::IntLessThanEqual { le } => "Input should be less than or equal to {le}"@,
            ErrorKind::IntLessThan { lt } => "Input should be less than {lt}"@,
            ErrorKind::IntGreaterThanEqual { ge } => "Input should be greater than or equal to {ge}"@,
            ErrorKind::IntGreaterThan { gt } => "Input should be greater than {gt}"@,
            ErrorKind::ListType => "Input should be a valid list"@,
            ErrorKind::SetType => "Input should be a valid set"@,
            ErrorKind::TooShort => "{type} should have at least {min_length} items"@,
            ErrorKind::TooLong => "{type} should have at most {max_length} items"@,
            ErrorKind::RecursionLoop => "Recursion error - cyclic reference detected"@,
        }
    }

    pub fn message_template(&self) -> (r: &'static str)
        ensures
            r@ == self.spec_template(),
    {
        match self {
            ErrorKind::NoneRequired => "Input should be None",
            ErrorKind::StrType => "Input should be a valid string",
            ErrorKind::StrUnicode => "Input should be a valid string, unable to parse raw data as a unicode string",
            ErrorKind::BoolType => "Input should be a valid boolean",
            ErrorKind::BoolParsing => "Input should be a valid boolean, unable to interpret input",
            ErrorKind::IntType => "Input should be a valid integer",
            ErrorKind::IntParsing => "Input should be a valid integer, unable to parse string as an integer",
            ErrorKind::IntFromFloat => "Input should be a valid integer, got a number with a fractional part",
            ErrorKind::IntMultipleOf { .. } => "Input should be a multiple of {multiple_of}",
            ErrorKind::IntLessThanEqual { .. } => "Input should be less than or equal to {le}",
            ErrorKind::IntLessThan { .. } => "Input should be less than {lt}",
            ErrorKind::IntGreaterThanEqual { .. } => "Input should be greater than or equal to {ge}",
            ErrorKind::IntGreaterThan { .. } => "Input should be greater than {gt}",
            ErrorKind::ListType => "Input should be a valid list",
            ErrorKind::SetType => "Input should be a valid set",
            ErrorKind::TooShort => "{type} should have at least {min_length} items",
            ErrorKind::TooLong => "{type} should have at most {max_length} items",
            ErrorKind::RecursionLoop => "Recursion error - cyclic reference detected",
        }
    }

    /// The context pairs implied by the kind itself: the violated bound of
    /// each parameterized integer-constraint kind, under the placeholder
    /// name its template uses.
    pub open spec fn spec_context(self) -> Seq<(Seq<char>, ContextValueView)> {
        match self {
            ErrorKind::IntMultipleOf { multiple_of } => seq![
                ("multiple_of"@, ContextValueView::I(multiple_of as int)),
            ],
            ErrorKind::IntLessThanEqual { le } => seq![("le"@, ContextValueView::I(le as int))],
            ErrorKind::IntLessThan { lt } => seq![("lt"@, ContextValueView::I(lt as int))],
            ErrorKind::IntGreaterThanEqual { ge } => seq![
                ("ge"@, ContextValueView::I(ge as int)),
            ],
            ErrorKind::IntGreaterThan { gt } => seq![("gt"@, ContextValueView::I(gt as int))],
            _ => Seq::empty(),
        }
    }

    pub fn default_context(&self) -> (r: Context)
        ensures
            r@ == self.spec_context(),
    {
        match self {
            ErrorKind::IntMultipleOf { multiple_of } => Context::new(
                vec![(String::from_str("multiple_of"), ContextValue::I(*multiple_of))],
            ),
            ErrorKind::IntLessThanEqual { le } => Context::new(
                vec![(String::from_str("le"), ContextValue::I(*le))],
            ),
            ErrorKind::IntLessThan { lt } => Context::new(
                vec![(String::from_str("lt"), ContextValue::I(*lt))],
            ),
            ErrorKind::IntGreaterThanEqual { ge } => Context::new(
                vec![(String::from_str("ge"), ContextValue::I(*ge))],
            ),
            ErrorKind::IntGreaterThan { gt } => Context::new(
                vec![(String::from_str("gt"), ContextValue::I(*gt))],
            ),
            _ => Context::new(Vec::new()),
        }
    }
}

} // verus!
