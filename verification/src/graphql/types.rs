//! Scalar types of the GraphQL schema that travel as text.

use vstd::prelude::*;

verus! {

/// A decimal number in text form.
pub type Decimal = String;

/// A JSON document in text form.
pub type JSON = String;

/// An unsigned 64-bit integer in text form.
pub type UnsignedInt64 = String;

/// A point in time in text form.
pub type DateTime = String;

} // verus!
