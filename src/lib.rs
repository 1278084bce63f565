//! Verified core of a molecular viewer: reading the bond records of Protein Data
//! Bank files, choosing which bonds to draw, the CPK radius and colour tables, the
//! type states of its perspective camera, and the index layout of the billboard
//! quad that every atom and bond is drawn on.
use vstd::prelude::*;

pub mod bonds;
pub mod camera;
pub mod conect;
pub mod elements;
pub mod geometry;

verus! {

} // verus!
