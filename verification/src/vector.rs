//! The vector types of the `ultraviolet` crate, as this library sees them.
//!
//! Points, directions, colours and rays pass through the library untouched: it
//! hands them from one call to the next and never looks inside.

use vstd::prelude::*;

verus! {

/// `ultraviolet::vec::Vec3`, three single-precision components. Declared
/// without its fields: to the verifier one such value is told from another
/// and nothing else.
#[verifier::external_type_specification]
#[verifier::external_body]
pub struct ExVec3(ultraviolet::vec::Vec3);

/// `ultraviolet::geometry::Ray`, an origin and a direction. Declared without
/// its fields, like the vector.
#[verifier::external_type_specification]
#[verifier::external_body]
pub struct ExRay(ultraviolet::geometry::Ray);

} // verus!
