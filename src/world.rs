use vstd::prelude::*;

verus! {

/// Positions in the scene are bevy's `Vec3`. The editing logic only stores
/// and hands such positions on; it never looks inside one.
#[verifier::external_type_specification]
#[verifier::external_body]
pub struct ExVec3(bevy::math::Vec3);

} // verus!
