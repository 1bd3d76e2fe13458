//! The capability for the primitive types.

use crate::error::{ErrorKind, ErrorView, MojomError};
use crate::parse::MojomParse;
use crate::value::{MojomType, MojomValue, TypeView, ValueView};
use vstd::prelude::*;

verus! {

impl MojomParse for bool {
    open spec fn name_spec() -> Seq<char> {
        "bool"@
    }

    open spec fn schema_spec() -> TypeView {
        TypeView::Bool
    }

    open spec fn encode(s: bool) -> ValueView {
        ValueView::Bool(s)
    }

    open spec fn decode(v: ValueView) -> Result<bool, ErrorView> {
        match v {
            ValueView::Bool(b) => Ok(b),
            _ => Err(
                ErrorView { kind: ErrorKind::VariantMismatch, expected: Self::name_spec(), value: v },
            ),
        }
    }

    fn name_of_type() -> (name: String) {
        "bool".to_owned()
    }

    fn schema() -> (t: MojomType) {
        MojomType::Bool
    }

    fn to_value(self) -> (v: MojomValue) {
        MojomValue::Bool(self)
    }

    fn from_value(value: MojomValue) -> (r: Result<bool, MojomError>) {
        match value {
            MojomValue::Bool(b) => Ok(b),
            other => Err(
                MojomError {
                    kind: ErrorKind::VariantMismatch,
                    expected: Self::name_of_type(),
                    value: other,
                },
            ),
        }
    }

    proof fn round_trip(s: bool) {
    }
}

impl MojomParse for i32 {
    open spec fn name_spec() -> Seq<char> {
        "i32"@
    }

    open spec fn schema_spec() -> TypeView {
        TypeView::Int32
    }

    open spec fn encode(s: i32) -> ValueView {
        ValueView::Int(s)
    }

    open spec fn decode(v: ValueView) -> Result<i32, ErrorView> {
        match v {
            ValueView::Int(n) => Ok(n),
            _ => Err(
                ErrorView { kind: ErrorKind::VariantMismatch, expected: Self::name_spec(), value: v },
            ),
        }
    }

    fn name_of_type() -> (name: String) {
        "i32".to_owned()
    }

    fn schema() -> (t: MojomType) {
        MojomType::Int32
    }

    fn to_value(self) -> (v: MojomValue) {
        MojomValue::Int(self)
    }

    fn from_value(value: MojomValue) -> (r: Result<i32, MojomError>) {
        match value {
            MojomValue::Int(n) => Ok(n),
            other => Err(
                MojomError {
                    kind: ErrorKind::VariantMismatch,
                    expected: Self::name_of_type(),
                    value: other,
                },
            ),
        }
    }

    proof fn round_trip(s: i32) {
    }
}

impl MojomParse for String {
    open spec fn name_spec() -> Seq<char> {
        "String"@
    }

    open spec fn schema_spec() -> TypeView {
        TypeView::Str
    }

    open spec fn encode(s: Seq<char>) -> ValueView {
        ValueView::Str(s)
    }

    open spec fn decode(v: ValueView) -> Result<Seq<char>, ErrorView> {
        match v {
            ValueView::Str(s) => Ok(s),
            _ => Err(
                ErrorView { kind: ErrorKind::VariantMismatch, expected: Self::name_spec(), value: v },
            ),
        }
    }

    fn name_of_type() -> (name: String) {
        "String".to_owned()
    }

    fn schema() -> (t: MojomType) {
        MojomType::Str
    }

    fn to_value(self) -> (v: MojomValue) {
        MojomValue::Str(self)
    }

    fn from_value(value: MojomValue) -> (r: Result<String, MojomError>) {
        match value {
            MojomValue::Str(s) => Ok(s),
            other => Err(
                MojomError {
                    kind: ErrorKind::VariantMismatch,
                    expected: Self::name_of_type(),
                    value: other,
                },
            ),
        }
    }

    proof fn round_trip(s: Seq<char>) {
    }
}

} // verus!
