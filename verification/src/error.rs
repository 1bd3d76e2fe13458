//! The failures of a reverse conversion.

use crate::value::{MojomValue, ValueView};
use vstd::prelude::*;

verus! {

/// Why a value could not be converted into a native type.
#[derive(Debug, Clone, Copy, PartialEq, Eq, Structural)]
pub enum ErrorKind {
    /// The value was not of the variant that the target type is built from.
    VariantMismatch,
    /// The value was a struct with another number of entries than the target
    /// type has fields.
    ArityMismatch,
}

/// A failed reverse conversion: what went wrong, the name of the type that was
/// asked for, and the value that was refused.
#[derive(Debug, PartialEq, Eq)]
pub struct MojomError {
    pub kind: ErrorKind,
    pub expected: String,
    pub value: MojomValue,
}

/// Mathematical model of a `MojomError`.
pub ghost struct ErrorView {
    pub kind: ErrorKind,
    pub expected: Seq<char>,
    pub value: ValueView,
}

impl View for MojomError {
    type V = ErrorView;

    open spec fn view(&self) -> ErrorView {
        ErrorView { kind: self.kind, expected: self.expected@, value: self.value@ }
    }
}

/// The model of the outcome of a reverse conversion.
pub open spec fn result_view<T: View>(r: Result<T, MojomError>) -> Result<T::V, ErrorView> {
    match r {
        Ok(s) => Ok(s@),
        Err(e) => Err(e@),
    }
}

} // verus!
