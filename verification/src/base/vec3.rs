use mint::Vector3;
use vstd::prelude::*;

verus! {

/// `mint::Vector3`: three coordinates `x`, `y`, `z` of one scalar type, all of them
/// public fields.
#[verifier::external_type_specification]
#[verifier::reject_recursive_types(T)]
pub struct ExVector3<T>(Vector3<T>);

/// The four lanes that the native engine reads a three-dimensional vector from:
/// the coordinates in order, with `z` once more in the spare lane.
pub open spec fn fixed_lanes<T>(v: Vector3<T>) -> Seq<T> {
    seq![v.x, v.y, v.z, v.z]
}

/// Lays a vector out in the four lanes of the native engine's vector registers.
pub fn to_fixed_vec3<T: Copy>(v: Vector3<T>) -> (lanes: [T; 4])
    ensures
        lanes@ == fixed_lanes(v),
{
    [v.x, v.y, v.z, v.z]
}

} // verus!
