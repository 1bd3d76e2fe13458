//! The capability that every participating type provides: a schema, a total
//! conversion into a value, and a fallible conversion back.

use crate::error::{result_view, ErrorView, MojomError};
use crate::value::{MojomType, MojomValue, TypeView, ValueView};
use vstd::prelude::*;

verus! {

/// A native type that can describe its shape, turn an instance into a
/// `MojomValue`, and be rebuilt from one.
pub trait MojomParse: View + Sized {
    /// The name under which the type appears in errors.
    spec fn name_spec() -> Seq<char>;

    /// The shape of the type.
    spec fn schema_spec() -> TypeView;

    /// The value that stands for an instance.
    spec fn encode(s: Self::V) -> ValueView;

    /// The instance that a value stands for, or the reason why it stands for
    /// none.
    spec fn decode(v: ValueView) -> Result<Self::V, ErrorView>;

    /// The name under which the type appears in errors.
    fn name_of_type() -> (name: String)
        ensures
            name@ == Self::name_spec(),
    ;

    /// The shape of the type; needs no instance.
    fn schema() -> (t: MojomType)
        ensures
            t@ == Self::schema_spec(),
    ;

    /// Forward conversion. Never fails.
    fn to_value(self) -> (v: MojomValue)
        ensures
            v@ == Self::encode(self@),
    ;

    /// Reverse conversion. All or nothing: either the instance that `value`
    /// stands for, or the first error met.
    fn from_value(value: MojomValue) -> (r: Result<Self, MojomError>)
        ensures
            result_view(r) == Self::decode(value@),
    ;

    /// Converting an instance into a value and back succeeds and gives the
    /// instance again.
    proof fn round_trip(s: Self::V)
        ensures
            Self::decode(Self::encode(s)) == Ok::<Self::V, ErrorView>(s),
    ;
}

/// The error with which a type refuses a value, if it does.
pub open spec fn refusal<F: MojomParse>(v: ValueView) -> Option<ErrorView> {
    match F::decode(v) {
        Ok(_) => None,
        Err(e) => Some(e),
    }
}

} // verus!
