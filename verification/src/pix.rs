//! The kind of a payment QR code, as it is reported across a language
//! boundary.

use vstd::prelude::*;

verus! {

/// What a validator found a well-formed payment code to be.
#[derive(Debug, Clone, Copy, PartialEq, Eq, Structural)]
pub enum ValidCodeKind {
    Dynamic,
    Static,
}

/// The kind of a payment QR code, with a place for a code that is none.
#[derive(Debug, Clone, Copy, PartialEq, Eq, Structural)]
pub enum PixQrCodeType {
    Invalid,
    Dynamic,
    Static,
}

/// The reported kind for a validator's answer: `Invalid` where it found no
/// valid code, else the kind that it found.
pub open spec fn reported_kind(found: Option<ValidCodeKind>) -> PixQrCodeType {
    match found {
        None => PixQrCodeType::Invalid,
        Some(ValidCodeKind::Dynamic) => PixQrCodeType::Dynamic,
        Some(ValidCodeKind::Static) => PixQrCodeType::Static,
    }
}

impl From<Option<ValidCodeKind>> for PixQrCodeType {
    fn from(value: Option<ValidCodeKind>) -> (kind: PixQrCodeType)
        ensures
            kind == reported_kind(value),
    {
        match value {
            None => PixQrCodeType::Invalid,
            Some(ValidCodeKind::Dynamic) => PixQrCodeType::Dynamic,
            Some(ValidCodeKind::Static) => PixQrCodeType::Static,
        }
    }
}

impl vstd::std_specs::convert::FromSpecImpl<Option<ValidCodeKind>> for PixQrCodeType {
    open spec fn obeys_from_spec() -> bool {
        true
    }

    open spec fn from_spec(value: Option<ValidCodeKind>) -> PixQrCodeType {
        reported_kind(value)
    }
}

} // verus!
