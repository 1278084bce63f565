//! Static geometry shared by the sphere and cylinder impostors.
use vstd::prelude::*;

verus! {

/// The two triangles of a billboard, as indices into its four corner vertices
/// (bottom-left, bottom-right, top-left, top-right).
pub open spec fn billboard_indices() -> Seq<u16> {
    seq![0u16, 1, 2, 1, 3, 2]
}

/// A unit quad centred on the origin, drawn as a camera-facing billboard.
pub struct Quad {}

impl Quad {
    /// The indices of the two triangles that make up the billboard.
    pub fn get_billboard_indices() -> (r: [u16; 6])
        ensures
            r@ == billboard_indices(),
    {
        let r = [0u16, 1, 2, 1, 3, 2];
        assert(r@ =~= billboard_indices());
        r
    }
}

} // verus!
