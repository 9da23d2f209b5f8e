//! Matrices of four columns and four rows.

use vstd::prelude::*;
use crate::num::BaseNum;
use crate::vector::Vector4;

verus! {

/// A 4 x 4 matrix, held as its four columns.
#[derive(PartialEq, Eq, Clone, Copy, Hash, Debug)]
pub struct Mat4<S> {
    pub x: Vector4<S>,
    pub y: Vector4<S>,
    pub z: Vector4<S>,
    pub w: Vector4<S>,
}

impl<S: BaseNum> View for Mat4<S> {
    type V = Seq<Seq<real>>;

    /// The columns, each from its first row to its last.
    open spec fn view(&self) -> Seq<Seq<real>> {
        seq![self.x@, self.y@, self.z@, self.w@]
    }
}

impl<S> Mat4<S> {
    /// The matrix of the sixteen entries, given column by column.
    #[inline]
    pub fn new(
        c0r0: S,
        c0r1: S,
        c0r2: S,
        c0r3: S,
        c1r0: S,
        c1r1: S,
        c1r2: S,
        c1r3: S,
        c2r0: S,
        c2r1: S,
        c2r2: S,
        c2r3: S,
        c3r0: S,
        c3r1: S,
        c3r2: S,
        c3r3: S,
    ) -> (r: Mat4<S>)
        ensures
            r.x == (Vector4 { x: c0r0, y: c0r1, z: c0r2, w: c0r3 }),
            r.y == (Vector4 { x: c1r0, y: c1r1, z: c1r2, w: c1r3 }),
            r.z == (Vector4 { x: c2r0, y: c2r1, z: c2r2, w: c2r3 }),
            r.w == (Vector4 { x: c3r0, y: c3r1, z: c3r2, w: c3r3 }),
    {
        Mat4 {
            x: Vector4::new(c0r0, c0r1, c0r2, c0r3),
            y: Vector4::new(c1r0, c1r1, c1r2, c1r3),
            z: Vector4::new(c2r0, c2r1, c2r2, c2r3),
            w: Vector4::new(c3r0, c3r1, c3r2, c3r3),
        }
    }
}

/// What can be turned into a 4 x 4 matrix.
pub trait ToMat4<S: BaseNum> {
    /// The matrix that `to_mat4` builds.
    spec fn mat4_spec(&self) -> Seq<Seq<real>>;

    /// Whether `to_mat4` can be called: the parameters are valid and `S`
    /// holds every number computed on the way.
    spec fn mat4_fits(&self) -> bool;

    fn to_mat4(&self) -> (r: Mat4<S>)
        requires
            self.mat4_fits(),
        ensures
            r@ == self.mat4_spec(),
    ;
}

} // verus!
