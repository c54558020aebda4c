//! Affine transformations: a thin wrapper around `Matrix` with the named
//! constructors (translation, scaling, rotations, shearing, view).

use vstd::prelude::*;

use crate::fx::Fx;
use crate::fx::fx_neg;
use crate::math::matrix::Matrix;
use crate::math::matrix::m_det;
use crate::math::matrix::m_identity;
use crate::math::matrix::m_inverse;
use crate::math::matrix::m_mul;
use crate::math::matrix::m_mul_point;
use crate::math::matrix::m_mul_vector;
use crate::math::matrix::m_transpose;
use crate::math::point::Point;
use crate::math::vector::V3;
use crate::math::vector::Vector;
use crate::math::vector::v_cross;
use crate::math::vector::v_normalize;
use crate::math::vector::v_sub;
use crate::trig::fx_cos;
use crate::trig::fx_sin;

verus! {

/// Wrapper around `Matrix`.
#[derive(Clone, Copy, Debug, PartialEq, Eq)]
pub struct Transformation {
    pub matrix: Matrix,
}

impl View for Transformation {
    type V = Seq<int>;

    open spec fn view(&self) -> Seq<int> {
        self.matrix@
    }
}

/// Model of the translation matrix.
pub open spec fn t_translation(x: int, y: int, z: int) -> Seq<int> {
    let one = crate::constants::FX_SCALE as int;
    seq![one, 0, 0, x, 0, one, 0, y, 0, 0, one, z, 0, 0, 0, one]
}

/// Model of the scaling matrix.
pub open spec fn t_scaling(x: int, y: int, z: int) -> Seq<int> {
    let one = crate::constants::FX_SCALE as int;
    seq![x, 0, 0, 0, 0, y, 0, 0, 0, 0, z, 0, 0, 0, 0, one]
}

/// Model of the rotation about the x axis by `rad` radians.
pub open spec fn t_rotate_x(rad: int) -> Seq<int> {
    let one = crate::constants::FX_SCALE as int;
    let c = fx_cos(rad);
    let s = fx_sin(rad);
    seq![one, 0, 0, 0, 0, c, fx_neg(s), 0, 0, s, c, 0, 0, 0, 0, one]
}

/// Model of the rotation about the y axis by `rad` radians.
pub open spec fn t_rotate_y(rad: int) -> Seq<int> {
    let one = crate::constants::FX_SCALE as int;
    let c = fx_cos(rad);
    let s = fx_sin(rad);
    seq![c, 0, s, 0, 0, one, 0, 0, fx_neg(s), 0, c, 0, 0, 0, 0, one]
}

/// Model of the rotation about the z axis by `rad` radians.
pub open spec fn t_rotate_z(rad: int) -> Seq<int> {
    let one = crate::constants::FX_SCALE as int;
    let c = fx_cos(rad);
    let s = fx_sin(rad);
    seq![c, fx_neg(s), 0, 0, s, c, 0, 0, 0, 0, one, 0, 0, 0, 0, one]
}

/// Model of the shearing matrix.
pub open spec fn t_shearing(x_y: int, x_z: int, y_x: int, y_z: int, z_x: int, z_y: int) -> Seq<
    int,
> {
    let one = crate::constants::FX_SCALE as int;
    seq![one, x_y, x_z, 0, y_x, one, y_z, 0, z_x, z_y, one, 0, 0, 0, 0, one]
}

/// Model of the view transformation: orient the world so that the eye
/// stands at the origin looking along `-z`, then translate it there.
pub open spec fn t_view(from: V3, to: V3, up: V3) -> Seq<int> {
    let one = crate::constants::FX_SCALE as int;
    let forward = v_normalize(v_sub(to, from));
    let upn = v_normalize(up);
    let left = v_cross(forward, upn);
    let true_up = v_cross(left, forward);
    let orientation = seq![
        left.x,
        left.y,
        left.z,
        0,
        true_up.x,
        true_up.y,
        true_up.z,
        0,
        fx_neg(forward.x),
        fx_neg(forward.y),
        fx_neg(forward.z),
        0,
        0,
        0,
        0,
        one,
    ];
    m_mul(orientation, t_translation(fx_neg(from.x), fx_neg(from.y), fx_neg(from.z)))
}

impl Transformation {
    /// Identity matrix, 4x4: "no transformation".
    pub fn identity() -> (r: Transformation)
        ensures
            r@ =~= m_identity(),
    {
        Transformation { matrix: Matrix::identity() }
    }

    /// Creates a translation; it moves points and leaves vectors alone.
    pub fn translation(x: Fx, y: Fx, z: Fx) -> (r: Transformation)
        ensures
            r@ =~= t_translation(x@, y@, z@),
    {
        let o: Fx = Fx::one();
        let zo: Fx = Fx::zero();
        Transformation {
            matrix: Matrix::new_from_vec([o, zo, zo, x, zo, o, zo, y, zo, zo, o, z, zo, zo, zo, o]),
        }
    }

    /// Returns a scaling transformation; it works on points and vectors.
    pub fn scaling(x: Fx, y: Fx, z: Fx) -> (r: Transformation)
        ensures
            r@ =~= t_scaling(x@, y@, z@),
    {
        let o: Fx = Fx::one();
        let zo: Fx = Fx::zero();
        Transformation {
            matrix: Matrix::new_from_vec(
                [x, zo, zo, zo, zo, y, zo, zo, zo, zo, z, zo, zo, zo, zo, o],
            ),
        }
    }

    /// Returns a rotation about the x axis; `rad` is the angle in radians.
    pub fn rotate_x(rad: Fx) -> (r: Transformation)
        ensures
            r@ =~= t_rotate_x(rad@),
    {
        let c: Fx = rad.cos();
        let s: Fx = rad.sin();
        let o: Fx = Fx::one();
        let zo: Fx = Fx::zero();
        Transformation {
            matrix: Matrix::new_from_vec(
                [o, zo, zo, zo, zo, c, s.neg(), zo, zo, s, c, zo, zo, zo, zo, o],
            ),
        }
    }

    /// Returns a rotation about the y axis; `rad` is the angle in radians.
    pub fn rotate_y(rad: Fx) -> (r: Transformation)
        ensures
            r@ =~= t_rotate_y(rad@),
    {
        let c: Fx = rad.cos();
        let s: Fx = rad.sin();
        let o: Fx = Fx::one();
        let zo: Fx = Fx::zero();
        Transformation {
            matrix: Matrix::new_from_vec(
                [c, zo, s, zo, zo, o, zo, zo, s.neg(), zo, c, zo, zo, zo, zo, o],
            ),
        }
    }

    /// Returns a rotation about the z axis; `rad` is the angle in radians.
    pub fn rotate_z(rad: Fx) -> (r: Transformation)
        ensures
            r@ =~= t_rotate_z(rad@),
    {
        let c: Fx = rad.cos();
        let s: Fx = rad.sin();
        let o: Fx = Fx::one();
        let zo: Fx = Fx::zero();
        Transformation {
            matrix: Matrix::new_from_vec(
                [c, s.neg(), zo, zo, s, c, zo, zo, zo, zo, o, zo, zo, zo, zo, o],
            ),
        }
    }

    /// Returns a shear (skew) transformation: each component is moved in
    /// proportion to the other two.
    pub fn shearing(x_y: Fx, x_z: Fx, y_x: Fx, y_z: Fx, z_x: Fx, z_y: Fx) -> (r: Transformation)
        ensures
            r@ =~= t_shearing(x_y@, x_z@, y_x@, y_z@, z_x@, z_y@),
    {
        let o: Fx = Fx::one();
        let zo: Fx = Fx::zero();
        Transformation {
            matrix: Matrix::new_from_vec(
                [o, x_y, x_z, zo, y_x, o, y_z, zo, z_x, z_y, o, zo, zo, zo, zo, o],
            ),
        }
    }

    /// The transformation that places the eye at `from`, looking at `to`,
    /// with `up` roughly upward.
    pub fn view(from: Point, to: Point, up: Vector) -> (r: Transformation)
        ensures
            r@ =~= t_view(from@, to@, up@),
    {
        let forward: Vector = to.subtract(&from).normalize();
        let upn: Vector = up.normalize();
        let left: Vector = forward.cross_product(&upn);
        let true_up: Vector = left.cross_product(&forward);
        let o: Fx = Fx::one();
        let zo: Fx = Fx::zero();
        let orientation: Matrix = Matrix::new_from_vec(
            [
                left.x,
                left.y,
                left.z,
                zo,
                true_up.x,
                true_up.y,
                true_up.z,
                zo,
                forward.x.neg(),
                forward.y.neg(),
                forward.z.neg(),
                zo,
                zo,
                zo,
                zo,
                o,
            ],
        );
        let translation: Transformation = Transformation::translation(
            from.x.neg(),
            from.y.neg(),
            from.z.neg(),
        );
        Transformation { matrix: orientation.mul_m(&translation.matrix) }
    }

    /// Inverses the transformation; `None` exactly when the matrix is
    /// singular.
    pub fn inverse(self) -> (r: Option<Transformation>)
        ensures
            m_det(self@) == 0 <==> r is None,
            r is Some ==> r->Some_0@ =~= m_inverse(self@),
    {
        match self.matrix.inverse() {
            Some(matrix) => Some(Transformation { matrix }),
            None => None,
        }
    }

    /// Transposes the underlying matrix.
    pub fn transpose(&self) -> (r: Transformation)
        ensures
            r@ =~= m_transpose(self@),
    {
        Transformation { matrix: self.matrix.transpose() }
    }

    /// Composes two transformations: `self * rhs` applies `rhs` first.
    pub fn mul_t(&self, rhs: &Transformation) -> (r: Transformation)
        ensures
            r@ =~= m_mul(self@, rhs@),
    {
        Transformation { matrix: self.matrix.mul_m(&rhs.matrix) }
    }

    /// Transforms a point.
    pub fn mul_point(&self, p: &Point) -> (r: Point)
        ensures
            r@ == m_mul_point(self@, p@),
    {
        self.matrix.mul_point(p)
    }

    /// Transforms a vector (translation does not apply).
    pub fn mul_vector(&self, v: &Vector) -> (r: Vector)
        ensures
            r@ == m_mul_vector(self@, v@),
    {
        self.matrix.mul_vector(v)
    }
}

} // verus!
