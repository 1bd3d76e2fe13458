//! Reflection core of a typed message system: a schema model, a dynamically
//! typed value model, and the conversions between native struct types and
//! values, with their validation rules. Beside it stands the reported kind of
//! a payment QR code.

pub mod error;
pub mod leaf;
pub mod parse;
pub mod pix;
pub mod shapes;
pub mod structs;
pub mod value;
