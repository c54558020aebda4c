//! 4x4 matrices, row-major, and their inverse by the cofactor method.

use vstd::prelude::*;

use crate::fx::Fx;
use crate::fx::fx_add;
use crate::fx::fx_div;
use crate::fx::fx_mul;
use crate::fx::fx_neg;
use crate::fx::fx_sub;
use crate::math::point::Point;
use crate::math::vector::V3;
use crate::math::vector::Vector;

verus! {

/// A 4x4 matrix of scalars, row-major.
#[derive(Clone, Copy, Debug, PartialEq, Eq)]
pub struct Matrix {
    pub data: [Fx; 16],
}

impl View for Matrix {
    type V = Seq<int>;

    open spec fn view(&self) -> Seq<int> {
        Seq::new(16, |i: int| self.data@[i]@)
    }
}

/// Entry at `(r, c)` of a row-major 4x4 matrix model.
pub open spec fn m_entry(m: Seq<int>, r: int, c: int) -> int {
    m[r * 4 + c]
}

/// Entry `(r, c)` of a matrix product: the dot product of row `r` of `a`
/// with column `c` of `b`, summed left to right.
pub open spec fn mm_entry(a: Seq<int>, b: Seq<int>, r: int, c: int) -> int {
    fx_add(
        fx_add(
            fx_add(
                fx_mul(m_entry(a, r, 0), m_entry(b, 0, c)),
                fx_mul(m_entry(a, r, 1), m_entry(b, 1, c)),
            ),
            fx_mul(m_entry(a, r, 2), m_entry(b, 2, c)),
        ),
        fx_mul(m_entry(a, r, 3), m_entry(b, 3, c)),
    )
}

pub open spec fn m_mul(a: Seq<int>, b: Seq<int>) -> Seq<int> {
    Seq::new(16, |i: int| mm_entry(a, b, i / 4, i % 4))
}

pub open spec fn m_transpose(m: Seq<int>) -> Seq<int> {
    Seq::new(16, |i: int| m_entry(m, i % 4, i / 4))
}

/// Row or column index shifted past a removed row or column.
pub open spec fn s_skip(x: int, q: int) -> int {
    if q < x {
        q
    } else {
        q + 1
    }
}

/// Entry `q` (0..9, row-major) of the 3x3 submatrix of `m` with row `r`
/// and column `c` removed.
pub open spec fn sub3(m: Seq<int>, r: int, c: int, q: int) -> int {
    m_entry(m, s_skip(r, q / 3), s_skip(c, q % 3))
}

/// Determinant of the 3x3 submatrix of `m` with row `r` and column `c`
/// removed (first-row expansion).
#[verifier::opaque]
pub open spec fn m_minor(m: Seq<int>, r: int, c: int) -> int {
    let a = sub3(m, r, c, 0);
    let b = sub3(m, r, c, 1);
    let cc = sub3(m, r, c, 2);
    let d = sub3(m, r, c, 3);
    let e = sub3(m, r, c, 4);
    let f = sub3(m, r, c, 5);
    let g = sub3(m, r, c, 6);
    let h = sub3(m, r, c, 7);
    let i = sub3(m, r, c, 8);
    fx_add(
        fx_sub(
            fx_mul(a, fx_sub(fx_mul(e, i), fx_mul(f, h))),
            fx_mul(b, fx_sub(fx_mul(d, i), fx_mul(f, g))),
        ),
        fx_mul(cc, fx_sub(fx_mul(d, h), fx_mul(e, g))),
    )
}

/// Signed minor.
pub open spec fn m_cofactor(m: Seq<int>, r: int, c: int) -> int {
    if (r + c) % 2 == 1 {
        fx_neg(m_minor(m, r, c))
    } else {
        m_minor(m, r, c)
    }
}

/// Determinant of a 4x4 matrix model, expanded along the first row.
pub open spec fn m_det(m: Seq<int>) -> int {
    fx_add(
        fx_add(
            fx_add(
                fx_mul(m_entry(m, 0, 0), m_cofactor(m, 0, 0)),
                fx_mul(m_entry(m, 0, 1), m_cofactor(m, 0, 1)),
            ),
            fx_mul(m_entry(m, 0, 2), m_cofactor(m, 0, 2)),
        ),
        fx_mul(m_entry(m, 0, 3), m_cofactor(m, 0, 3)),
    )
}

/// Inverse of a 4x4 matrix model: the transposed cofactors, each divided
/// by the determinant.  Meaningful only when the determinant is nonzero.
pub open spec fn m_inverse(m: Seq<int>) -> Seq<int> {
    Seq::new(16, |i: int| fx_div(m_cofactor(m, i % 4, i / 4), m_det(m)))
}

/// A point transformed by a matrix (the fourth homogeneous coordinate of a
/// point is one, so the translation column contributes).
pub open spec fn m_mul_point(m: Seq<int>, p: V3) -> V3 {
    V3 {
        x: fx_add(
            fx_add(
                fx_add(fx_mul(m_entry(m, 0, 0), p.x), fx_mul(m_entry(m, 0, 1), p.y)),
                fx_mul(m_entry(m, 0, 2), p.z),
            ),
            m_entry(m, 0, 3),
        ),
        y: fx_add(
            fx_add(
                fx_add(fx_mul(m_entry(m, 1, 0), p.x), fx_mul(m_entry(m, 1, 1), p.y)),
                fx_mul(m_entry(m, 1, 2), p.z),
            ),
            m_entry(m, 1, 3),
        ),
        z: fx_add(
            fx_add(
                fx_add(fx_mul(m_entry(m, 2, 0), p.x), fx_mul(m_entry(m, 2, 1), p.y)),
                fx_mul(m_entry(m, 2, 2), p.z),
            ),
            m_entry(m, 2, 3),
        ),
    }
}

/// A vector transformed by a matrix (the fourth homogeneous coordinate of
/// a vector is zero, so translation does not apply).
pub open spec fn m_mul_vector(m: Seq<int>, v: V3) -> V3 {
    V3 {
        x: fx_add(
            fx_add(fx_mul(m_entry(m, 0, 0), v.x), fx_mul(m_entry(m, 0, 1), v.y)),
            fx_mul(m_entry(m, 0, 2), v.z),
        ),
        y: fx_add(
            fx_add(fx_mul(m_entry(m, 1, 0), v.x), fx_mul(m_entry(m, 1, 1), v.y)),
            fx_mul(m_entry(m, 1, 2), v.z),
        ),
        z: fx_add(
            fx_add(fx_mul(m_entry(m, 2, 0), v.x), fx_mul(m_entry(m, 2, 1), v.y)),
            fx_mul(m_entry(m, 2, 2), v.z),
        ),
    }
}

/// The identity matrix model.
pub open spec fn m_identity() -> Seq<int> {
    let one = crate::constants::FX_SCALE as int;
    seq![one, 0, 0, 0, 0, one, 0, 0, 0, 0, one, 0, 0, 0, 0, one]
}


/// The determinant of the identity is one, and the identity is its own
/// inverse, entry by entry, in the fixed-point arithmetic too.
#[verifier::rlimit(100)]
#[verifier::spinoff_prover]
pub proof fn lemma_identity_inverse()
    ensures
        m_det(m_identity()) == crate::constants::FX_SCALE as int,
        m_inverse(m_identity()) =~= m_identity(),
{
    reveal(m_minor);
    let one = crate::constants::FX_SCALE as int;
    let ident = m_identity();
    vstd::arithmetic::div_mod::lemma_div_basics(one);
    crate::fx::lemma_fx_mul_zero(one);
    crate::fx::lemma_fx_mul_zero(0);
    assert(ident[0] == one);
    assert(ident[5] == one);
    assert(ident[1] == 0);
    assert(m_entry(ident, 1, 1) == one);
    assert(fx_mul(one, one) == one);
    assert(fx_mul(one, 0) == 0);
    assert(sub3(ident, 0, 0, 0) == one);
    assert(sub3(ident, 0, 0, 1) == 0);
    assert(sub3(ident, 0, 0, 4) == one);
    assert(sub3(ident, 0, 0, 8) == one);
    assert(m_minor(ident, 0, 0) == one);
    assert(m_cofactor(ident, 0, 0) == one);
    assert(m_cofactor(ident, 1, 1) == one);
    assert(m_cofactor(ident, 2, 2) == one);
    assert(m_cofactor(ident, 3, 3) == one);
    assert(m_cofactor(ident, 0, 1) == 0);
    assert(m_cofactor(ident, 0, 2) == 0);
    assert(m_cofactor(ident, 0, 3) == 0);
    assert(m_cofactor(ident, 1, 0) == 0);
    assert(m_cofactor(ident, 1, 2) == 0);
    assert(m_cofactor(ident, 1, 3) == 0);
    assert(m_cofactor(ident, 2, 0) == 0);
    assert(m_cofactor(ident, 2, 1) == 0);
    assert(m_cofactor(ident, 2, 3) == 0);
    assert(m_cofactor(ident, 3, 0) == 0);
    assert(m_cofactor(ident, 3, 1) == 0);
    assert(m_cofactor(ident, 3, 2) == 0);
    assert(m_det(ident) == one);
    assert(fx_div(one, one) == one);
    assert(fx_div(0, one) == 0);
    assert(fx_neg(0) == 0);
}

impl Matrix {
    /// Creates a new zero matrix.
    pub fn new() -> (r: Matrix)
        ensures
            r@ =~= Seq::new(16, |i: int| 0int),
    {
        Matrix::new_fill_with(Fx::zero())
    }

    /// Creates a new matrix with every entry equal to `value`.
    pub fn new_fill_with(value: Fx) -> (r: Matrix)
        ensures
            r@ =~= Seq::new(16, |i: int| value@),
    {
        Matrix {
            data: [
                value,
                value,
                value,
                value,
                value,
                value,
                value,
                value,
                value,
                value,
                value,
                value,
                value,
                value,
                value,
                value,
            ],
        }
    }

    /// Creates a new matrix from its sixteen entries, row-major.
    pub fn new_from_vec(vec: [Fx; 16]) -> (r: Matrix)
        ensures
            r@ =~= Seq::new(16, |i: int| vec@[i]@),
    {
        Matrix { data: vec }
    }

    /// The 4x4 identity matrix.
    pub fn identity() -> (r: Matrix)
        ensures
            r@ =~= m_identity(),
    {
        let o: Fx = Fx::one();
        let z: Fx = Fx::zero();
        Matrix { data: [o, z, z, z, z, o, z, z, z, z, o, z, z, z, z, o] }
    }

    /// Gets the entry at `(row, column)`, zero indexed.
    pub fn get(&self, row: usize, column: usize) -> (v: Fx)
        requires
            row < 4,
            column < 4,
        ensures
            v@ == m_entry(self@, row as int, column as int),
    {
        self.data[row * 4 + column]
    }

    /// Writes `value` at `(row, column)`, zero indexed.
    pub fn write(&mut self, row: usize, column: usize, value: Fx)
        requires
            row < 4,
            column < 4,
        ensures
            final(self)@ =~= old(self)@.update(row * 4 + column, value@),
    {
        self.data[row * 4 + column] = value;
    }

    /// Transposes the matrix: rows become columns and vice versa.
    pub fn transpose(&self) -> (r: Matrix)
        ensures
            r@ =~= m_transpose(self@),
    {
        Matrix {
            data: [
                self.get(0, 0),
                self.get(1, 0),
                self.get(2, 0),
                self.get(3, 0),
                self.get(0, 1),
                self.get(1, 1),
                self.get(2, 1),
                self.get(3, 1),
                self.get(0, 2),
                self.get(1, 2),
                self.get(2, 2),
                self.get(3, 2),
                self.get(0, 3),
                self.get(1, 3),
                self.get(2, 3),
                self.get(3, 3),
            ],
        }
    }

    /// Index shifted past the removed row or column.
    fn skip_idx(x: usize, q: usize) -> (r: usize)
        requires
            x < 4,
            q < 3,
        ensures
            r as int == s_skip(x as int, q as int),
            r < 4,
    {
        if q < x {
            q
        } else {
            q + 1
        }
    }

    /// Entry `q` of the 3x3 submatrix with row `r` and column `c` removed.
    fn sub_entry(&self, r: usize, c: usize, q: usize) -> (v: Fx)
        requires
            r < 4,
            c < 4,
            q < 9,
        ensures
            v@ == sub3(self@, r as int, c as int, q as int),
    {
        self.get(Matrix::skip_idx(r, q / 3), Matrix::skip_idx(c, q % 3))
    }

    /// Signed 3x3 cofactor at `(r, c)`.
    fn cofactor(&self, r: usize, c: usize) -> (v: Fx)
        requires
            r < 4,
            c < 4,
        ensures
            v@ == m_cofactor(self@, r as int, c as int),
    {
        let a: Fx = self.sub_entry(r, c, 0);
        let b: Fx = self.sub_entry(r, c, 1);
        let cc: Fx = self.sub_entry(r, c, 2);
        let d: Fx = self.sub_entry(r, c, 3);
        let e: Fx = self.sub_entry(r, c, 4);
        let f: Fx = self.sub_entry(r, c, 5);
        let g: Fx = self.sub_entry(r, c, 6);
        let h: Fx = self.sub_entry(r, c, 7);
        let i: Fx = self.sub_entry(r, c, 8);
        let minor: Fx = a.mul(e.mul(i).sub(f.mul(h))).sub(b.mul(d.mul(i).sub(f.mul(g)))).add(
            cc.mul(d.mul(h).sub(e.mul(g))),
        );
        proof {
            reveal(m_minor);
        }
        if (r + c) % 2 == 1 {
            minor.neg()
        } else {
            minor
        }
    }

    /// Finds the matrix determinant (first-row cofactor expansion).
    pub fn determinant(&self) -> (v: Fx)
        ensures
            v@ == m_det(self@),
    {
        self.get(0, 0).mul(self.cofactor(0, 0)).add(self.get(0, 1).mul(self.cofactor(0, 1))).add(
            self.get(0, 2).mul(self.cofactor(0, 2)),
        ).add(self.get(0, 3).mul(self.cofactor(0, 3)))
    }

    /// Entry `(r, c)` of the product `self * rhs`.
    fn mul_entry(&self, rhs: &Matrix, r: usize, c: usize) -> (v: Fx)
        requires
            r < 4,
            c < 4,
        ensures
            v@ == mm_entry(self@, rhs@, r as int, c as int),
    {
        self.get(r, 0).mul(rhs.get(0, c)).add(self.get(r, 1).mul(rhs.get(1, c))).add(
            self.get(r, 2).mul(rhs.get(2, c)),
        ).add(self.get(r, 3).mul(rhs.get(3, c)))
    }

    /// Multiplies two matrices.
    pub fn mul_m(&self, rhs: &Matrix) -> (r: Matrix)
        ensures
            r@ =~= m_mul(self@, rhs@),
    {
        Matrix {
            data: [
                self.mul_entry(rhs, 0, 0),
                self.mul_entry(rhs, 0, 1),
                self.mul_entry(rhs, 0, 2),
                self.mul_entry(rhs, 0, 3),
                self.mul_entry(rhs, 1, 0),
                self.mul_entry(rhs, 1, 1),
                self.mul_entry(rhs, 1, 2),
                self.mul_entry(rhs, 1, 3),
                self.mul_entry(rhs, 2, 0),
                self.mul_entry(rhs, 2, 1),
                self.mul_entry(rhs, 2, 2),
                self.mul_entry(rhs, 2, 3),
                self.mul_entry(rhs, 3, 0),
                self.mul_entry(rhs, 3, 1),
                self.mul_entry(rhs, 3, 2),
                self.mul_entry(rhs, 3, 3),
            ],
        }
    }

    /// Transforms a point (the translation column applies).
    pub fn mul_point(&self, p: &Point) -> (r: Point)
        ensures
            r@ == m_mul_point(self@, p@),
    {
        Point {
            x: self.get(0, 0).mul(p.x).add(self.get(0, 1).mul(p.y)).add(
                self.get(0, 2).mul(p.z),
            ).add(self.get(0, 3)),
            y: self.get(1, 0).mul(p.x).add(self.get(1, 1).mul(p.y)).add(
                self.get(1, 2).mul(p.z),
            ).add(self.get(1, 3)),
            z: self.get(2, 0).mul(p.x).add(self.get(2, 1).mul(p.y)).add(
                self.get(2, 2).mul(p.z),
            ).add(self.get(2, 3)),
        }
    }

    /// Transforms a vector (the translation column does not apply).
    pub fn mul_vector(&self, v: &Vector) -> (r: Vector)
        ensures
            r@ == m_mul_vector(self@, v@),
    {
        Vector {
            x: self.get(0, 0).mul(v.x).add(self.get(0, 1).mul(v.y)).add(self.get(0, 2).mul(v.z)),
            y: self.get(1, 0).mul(v.x).add(self.get(1, 1).mul(v.y)).add(self.get(1, 2).mul(v.z)),
            z: self.get(2, 0).mul(v.x).add(self.get(2, 1).mul(v.y)).add(self.get(2, 2).mul(v.z)),
        }
    }

    /// Inverts the matrix; returns `None` exactly when the determinant is
    /// zero.
    #[verifier::rlimit(60)]
    pub fn inverse(&self) -> (r: Option<Matrix>)
        ensures
            m_det(self@) == 0 <==> r is None,
            r is Some ==> r->Some_0@ =~= m_inverse(self@),
    {
        let det: Fx = self.determinant();
        if det.raw == 0 {
            None
        } else {
            Some(
                Matrix {
                    data: [
                        self.cofactor(0, 0).div(det),
                        self.cofactor(1, 0).div(det),
                        self.cofactor(2, 0).div(det),
                        self.cofactor(3, 0).div(det),
                        self.cofactor(0, 1).div(det),
                        self.cofactor(1, 1).div(det),
                        self.cofactor(2, 1).div(det),
                        self.cofactor(3, 1).div(det),
                        self.cofactor(0, 2).div(det),
                        self.cofactor(1, 2).div(det),
                        self.cofactor(2, 2).div(det),
                        self.cofactor(3, 2).div(det),
                        self.cofactor(0, 3).div(det),
                        self.cofactor(1, 3).div(det),
                        self.cofactor(2, 3).div(det),
                        self.cofactor(3, 3).div(det),
                    ],
                },
            )
        }
    }
}

/// Removes `row_to_remove` and `column_to_remove`, returning the nine
/// remaining entries, row-major: the 3x3 submatrix.
pub fn submatrix(matrix: &Matrix, row_to_remove: usize, column_to_remove: usize) -> (r: [Fx; 9])
    requires
        row_to_remove < 4,
        column_to_remove < 4,
    ensures
        forall|q: int|
            0 <= q < 9 ==> #[trigger] r@[q]@ == sub3(
                matrix@,
                row_to_remove as int,
                column_to_remove as int,
                q,
            ),
{
    let r0: Fx = matrix.sub_entry(row_to_remove, column_to_remove, 0);
    let r1: Fx = matrix.sub_entry(row_to_remove, column_to_remove, 1);
    let r2: Fx = matrix.sub_entry(row_to_remove, column_to_remove, 2);
    let r3: Fx = matrix.sub_entry(row_to_remove, column_to_remove, 3);
    let r4: Fx = matrix.sub_entry(row_to_remove, column_to_remove, 4);
    let r5: Fx = matrix.sub_entry(row_to_remove, column_to_remove, 5);
    let r6: Fx = matrix.sub_entry(row_to_remove, column_to_remove, 6);
    let r7: Fx = matrix.sub_entry(row_to_remove, column_to_remove, 7);
    let r8: Fx = matrix.sub_entry(row_to_remove, column_to_remove, 8);
    [r0, r1, r2, r3, r4, r5, r6, r7, r8]
}

} // verus!
