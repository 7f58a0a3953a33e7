use vstd::prelude::*;
use core::convert::From;
use core::ops::{Add, Div, Index, Mul, Neg, Sub};
use vstd::arithmetic::div_mod::lemma_fundamental_div_mod_converse;
use vstd::std_specs::convert::FromSpec;
use vstd::std_specs::ops::{AddSpec, DivSpec, MulSpec, NegSpec, SubSpec};
use crate::scalar::{small, specified_arith};
use crate::vector2::Vector2;

verus! {

/// A 4x4 matrix, stored column by column: the cell at `(row, column)` sits
/// at linear position `column * 4 + row`.
#[verifier::reject_recursive_types(T)]
#[derive(Copy, Clone)]
pub struct Matrix4x4<T> {
    columns: [[T; 4]; 4],
}

/// The cell at `(row, column)` of a column-major sequence of 16 scalars.
pub open spec fn entry<T>(m: Seq<T>, row: int, column: int) -> T {
    m[column * 4 + row]
}

/// The `k`-th term of the dot product of row `row` of `a` with column
/// `column` of `b`.
pub open spec fn term<T: Mul<Output = T>>(a: Seq<T>, b: Seq<T>, row: int, k: int, column: int) -> T {
    entry(a, row, k).mul_spec(entry(b, k, column))
}

/// Cell `(row, column)` of the product `a * b`: the four terms summed from
/// left to right.
pub open spec fn product_entry<T: Add<Output = T> + Mul<Output = T>>(a: Seq<T>, b: Seq<T>, row: int, column: int) -> T {
    term(a, b, row, 0, column).add_spec(term(a, b, row, 1, column)).add_spec(
        term(a, b, row, 2, column),
    ).add_spec(term(a, b, row, 3, column))
}

/// Every operation that computes cell `(row, column)` of `a * b` is within
/// the operators' own preconditions (for integers: nothing overflows).
pub open spec fn entry_defined<T: Add<Output = T> + Mul<Output = T>>(a: Seq<T>, b: Seq<T>, row: int, column: int) -> bool {
    &&& entry(a, row, 0).mul_req(entry(b, 0, column))
    &&& entry(a, row, 1).mul_req(entry(b, 1, column))
    &&& entry(a, row, 2).mul_req(entry(b, 2, column))
    &&& entry(a, row, 3).mul_req(entry(b, 3, column))
    &&& term(a, b, row, 0, column).add_req(term(a, b, row, 1, column))
    &&& term(a, b, row, 0, column).add_spec(term(a, b, row, 1, column)).add_req(
        term(a, b, row, 2, column),
    )
    &&& term(a, b, row, 0, column).add_spec(term(a, b, row, 1, column)).add_spec(
        term(a, b, row, 2, column),
    ).add_req(term(a, b, row, 3, column))
}

/// Every cell of `a * b` can be computed.
pub open spec fn product_defined<T: Add<Output = T> + Mul<Output = T>>(a: Seq<T>, b: Seq<T>) -> bool {
    forall|row: int, column: int|
        0 <= row < 4 && 0 <= column < 4 ==> #[trigger] entry_defined(a, b, row, column)
}

/// The matrix product `a * b`, column-major.
pub open spec fn product<T: Add<Output = T> + Mul<Output = T>>(a: Seq<T>, b: Seq<T>) -> Seq<T> {
    Seq::new(16, |i: int| product_entry(a, b, i % 4, i / 4))
}

/// The identity matrix: one on the main diagonal, zero elsewhere.
pub open spec fn identity_view<T: From<i8>>() -> Seq<T> {
    Seq::new(16, |i: int| if i / 4 == i % 4 { small::<T>(1) } else { small::<T>(0) })
}

/// The matrix of all zeros.
pub open spec fn zero_view<T: From<i8>>() -> Seq<T> {
    Seq::new(16, |i: int| small::<T>(0))
}

/// The identity with `x` at `(0, 3)` and `y` at `(1, 3)`.
pub open spec fn translation_view<T: From<i8>>(x: T, y: T) -> Seq<T> {
    identity_view::<T>().update(12, x).update(13, y)
}

/// Cell `(row, column)` sits at position `column * 4 + row`, and no other
/// cell does.
pub proof fn lemma_position(row: int, column: int)
    requires
        0 <= row < 4,
        0 <= column < 4,
    ensures
        0 <= column * 4 + row < 16,
        (column * 4 + row) / 4 == column,
        (column * 4 + row) % 4 == row,
{
    lemma_fundamental_div_mod_converse(column * 4 + row, 4, column, row);
}

/// Two column-major sequences of 16 scalars with the same cells are equal.
pub proof fn lemma_same_cells<T>(s: Seq<T>, t: Seq<T>)
    requires
        s.len() == 16,
        t.len() == 16,
        entry(s, 0, 0) == entry(t, 0, 0), entry(s, 0, 1) == entry(t, 0, 1),
        entry(s, 0, 2) == entry(t, 0, 2), entry(s, 0, 3) == entry(t, 0, 3),
        entry(s, 1, 0) == entry(t, 1, 0), entry(s, 1, 1) == entry(t, 1, 1),
        entry(s, 1, 2) == entry(t, 1, 2), entry(s, 1, 3) == entry(t, 1, 3),
        entry(s, 2, 0) == entry(t, 2, 0), entry(s, 2, 1) == entry(t, 2, 1),
        entry(s, 2, 2) == entry(t, 2, 2), entry(s, 2, 3) == entry(t, 2, 3),
        entry(s, 3, 0) == entry(t, 3, 0), entry(s, 3, 1) == entry(t, 3, 1),
        entry(s, 3, 2) == entry(t, 3, 2), entry(s, 3, 3) == entry(t, 3, 3),
    ensures
        s == t,
{
    assert forall|i: int| 0 <= i < 16 implies s[i] == t[i] by {
        assert(i == 0 || i == 1 || i == 2 || i == 3 || i == 4 || i == 5 || i == 6 || i == 7
            || i == 8 || i == 9 || i == 10 || i == 11 || i == 12 || i == 13 || i == 14 || i == 15);
    }
    assert(s =~= t);
}

/// `-((hi + lo) / (hi - lo))`: the offset that an orthographic projection
/// gives one axis.
pub open spec fn axis_offset<T: Add<Output = T> + Sub<Output = T> + Div<Output = T> + Neg<Output = T>>(lo: T, hi: T) -> T {
    hi.add_spec(lo).div_spec(hi.sub_spec(lo)).neg_spec()
}

/// `2 / (hi - lo)`: the scale that an orthographic projection gives one axis.
pub open spec fn axis_scale<T: Sub<Output = T> + Div<Output = T> + From<i8>>(lo: T, hi: T) -> T {
    small::<T>(2).div_spec(hi.sub_spec(lo))
}

/// The operations behind the scale and offset of one axis are within the
/// operators' own preconditions.
pub open spec fn axis_defined<T: Add<Output = T> + Sub<Output = T> + Div<Output = T> + Neg<Output = T> + From<i8>>(lo: T, hi: T) -> bool {
    &&& hi.sub_req(lo)
    &&& hi.add_req(lo)
    &&& small::<T>(2).div_req(hi.sub_spec(lo))
    &&& hi.add_spec(lo).div_req(hi.sub_spec(lo))
    &&& hi.add_spec(lo).div_spec(hi.sub_spec(lo)).neg_req()
}

/// The orthographic projection of the box `[left, right] x [bottom, top] x
/// [near, far]`, column-major: each axis gets its scale on the diagonal and
/// its offset in the last column, and `(3, 3)` is one.
pub open spec fn orthographic_view<T: Add<Output = T> + Sub<Output = T> + Div<Output = T> + Neg<Output = T> + From<i8>>(
    left: T,
    right: T,
    bottom: T,
    top: T,
    near: T,
    far: T,
) -> Seq<T> {
    let o = small::<T>(0);
    seq![
        axis_scale(left, right), o, o, o,
        o, axis_scale(bottom, top), o, o,
        o, o, axis_scale(near, far), o,
        axis_offset(left, right), axis_offset(bottom, top), axis_offset(near, far), small::<T>(1),
    ]
}

impl<T> View for Matrix4x4<T> {
    type V = Seq<T>;

    /// The 16 cells in column-major order.
    closed spec fn view(&self) -> Seq<T> {
        Seq::new(16, |i: int| self.columns[i / 4][i % 4])
    }
}

impl<T: Copy> Matrix4x4<T> {
    /// Every matrix has 16 cells.
    pub proof fn lemma_len(self)
        ensures
            self@.len() == 16,
    {
    }

    /// Two matrices with the same cells are the same matrix.
    pub proof fn lemma_ext_equal(self, other: Self)
        requires
            self@ == other@,
        ensures
            self == other,
    {
        assert forall|c: int, r: int| 0 <= c < 4 && 0 <= r < 4 implies self.columns[c][r]
            == other.columns[c][r] by {
            lemma_position(r, c);
            let i = c * 4 + r;
            assert(self@[i] == self.columns[i / 4][i % 4]);
            assert(other@[i] == other.columns[i / 4][i % 4]);
        }
        assert forall|c: int| 0 <= c < 4 implies self.columns[c] == other.columns[c] by {
            assert(self.columns[c] =~= other.columns[c]);
        }
        assert(self.columns =~= other.columns);
    }

    /// Builds the matrix whose cell `(r, c)` is `m<r><c>`; the arguments run
    /// row by row.
    pub fn new(
        m00: T, m01: T, m02: T, m03: T,
        m10: T, m11: T, m12: T, m13: T,
        m20: T, m21: T, m22: T, m23: T,
        m30: T, m31: T, m32: T, m33: T,
    ) -> (r: Matrix4x4<T>)
        ensures
            r@.len() == 16,
            entry(r@, 0, 0) == m00, entry(r@, 0, 1) == m01, entry(r@, 0, 2) == m02, entry(r@, 0, 3) == m03,
            entry(r@, 1, 0) == m10, entry(r@, 1, 1) == m11, entry(r@, 1, 2) == m12, entry(r@, 1, 3) == m13,
            entry(r@, 2, 0) == m20, entry(r@, 2, 1) == m21, entry(r@, 2, 2) == m22, entry(r@, 2, 3) == m23,
            entry(r@, 3, 0) == m30, entry(r@, 3, 1) == m31, entry(r@, 3, 2) == m32, entry(r@, 3, 3) == m33,
    {
        Matrix4x4 {
            columns: [
                [m00, m10, m20, m30],
                [m01, m11, m21, m31],
                [m02, m12, m22, m32],
                [m03, m13, m23, m33],
            ],
        }
    }

    /// The cell at `(0, 0)`, the first in storage order.
    pub fn first(&self) -> (r: &T)
        ensures
            *r == entry(self@, 0, 0),
    {
        &self.columns[0][0]
    }

    /// The cell at `(row, column)`. Both must be at most 3: a caller that
    /// passes more has a bug, and an unchecked caller gets a panic.
    pub fn get(&self, row: usize, column: usize) -> (r: T)
        requires
            row < 4,
            column < 4,
        ensures
            r == entry(self@, row as int, column as int),
    {
        self.columns[column][row]
    }

    /// The cell at `(row, column)`, or `None` where either is above 3.
    pub fn checked_get(&self, row: usize, column: usize) -> (r: Option<T>)
        ensures
            r == (if row < 4 && column < 4 {
                Some(entry(self@, row as int, column as int))
            } else {
                None::<T>
            }),
    {
        if row < 4 && column < 4 {
            Some(self.columns[column][row])
        } else {
            None
        }
    }
}

impl<T: Add<Output = T> + Sub<Output = T> + Mul<Output = T> + Copy> Matrix4x4<T> {
    /// Cell `(row, column)` of `self * other`: row `row` of `self` times
    /// column `column` of `other`.
    fn row_column_dot(&self, other: &Matrix4x4<T>, row: usize, column: usize) -> (r: T)
        requires
            specified_arith::<T>(),
            row < 4,
            column < 4,
            entry_defined(self@, other@, row as int, column as int),
        ensures
            r == product_entry(self@, other@, row as int, column as int),
    {
        self.get(row, 0) * other.get(0, column) + self.get(row, 1) * other.get(1, column)
            + self.get(row, 2) * other.get(2, column) + self.get(row, 3) * other.get(3, column)
    }

    /// The matrix product `self * matrix4x4`: cell `(r, c)` is the sum over
    /// `k` of `self(r, k) * matrix4x4(k, c)`, added from `k = 0` up.
    pub fn mul(&self, matrix4x4: Matrix4x4<T>) -> (r: Matrix4x4<T>)
        requires
            specified_arith::<T>(),
            product_defined(self@, matrix4x4@),
        ensures
            r@ == product(self@, matrix4x4@),
    {
        let other = &matrix4x4;
        assert(entry_defined(self@, other@, 0, 0) && entry_defined(self@, other@, 0, 1)
            && entry_defined(self@, other@, 0, 2) && entry_defined(self@, other@, 0, 3));
        assert(entry_defined(self@, other@, 1, 0) && entry_defined(self@, other@, 1, 1)
            && entry_defined(self@, other@, 1, 2) && entry_defined(self@, other@, 1, 3));
        assert(entry_defined(self@, other@, 2, 0) && entry_defined(self@, other@, 2, 1)
            && entry_defined(self@, other@, 2, 2) && entry_defined(self@, other@, 2, 3));
        assert(entry_defined(self@, other@, 3, 0) && entry_defined(self@, other@, 3, 1)
            && entry_defined(self@, other@, 3, 2) && entry_defined(self@, other@, 3, 3));
        let m00 = self.row_column_dot(other, 0, 0);
        let m01 = self.row_column_dot(other, 0, 1);
        let m02 = self.row_column_dot(other, 0, 2);
        let m03 = self.row_column_dot(other, 0, 3);
        let m10 = self.row_column_dot(other, 1, 0);
        let m11 = self.row_column_dot(other, 1, 1);
        let m12 = self.row_column_dot(other, 1, 2);
        let m13 = self.row_column_dot(other, 1, 3);
        let m20 = self.row_column_dot(other, 2, 0);
        let m21 = self.row_column_dot(other, 2, 1);
        let m22 = self.row_column_dot(other, 2, 2);
        let m23 = self.row_column_dot(other, 2, 3);
        let m30 = self.row_column_dot(other, 3, 0);
        let m31 = self.row_column_dot(other, 3, 1);
        let m32 = self.row_column_dot(other, 3, 2);
        let m33 = self.row_column_dot(other, 3, 3);
        let r = Matrix4x4::new(
            m00, m01, m02, m03,
            m10, m11, m12, m13,
            m20, m21, m22, m23,
            m30, m31, m32, m33,
        );
        proof {
            lemma_same_cells(r@, product(self@, matrix4x4@));
        }
        r
    }
}

impl<T: Copy + From<i8>> Matrix4x4<T> {
    /// The identity matrix.
    pub fn identity() -> (r: Matrix4x4<T>)
        ensures
            T::obeys_from_spec() ==> r@ == identity_view::<T>(),
    {
        let o = T::from(0i8);
        let l = T::from(1i8);
        let r = Matrix4x4::new(
            l, o, o, o,
            o, l, o, o,
            o, o, l, o,
            o, o, o, l,
        );
        proof {
            if T::obeys_from_spec() {
                lemma_same_cells(r@, identity_view::<T>());
            }
        }
        r
    }
}

impl<T: Copy + From<i8>> Default for Matrix4x4<T> {
    /// The matrix of all zeros.
    fn default() -> (r: Matrix4x4<T>)
        ensures
            T::obeys_from_spec() ==> r@ == zero_view::<T>(),
    {
        let o = T::from(0i8);
        let r = Matrix4x4::new(
            o, o, o, o,
            o, o, o, o,
            o, o, o, o,
            o, o, o, o,
        );
        proof {
            if T::obeys_from_spec() {
                lemma_same_cells(r@, zero_view::<T>());
            }
        }
        r
    }
}

impl<T: Add<Output = T> + Sub<Output = T> + Mul<Output = T> + Copy + From<i8>> Matrix4x4<T> {
    /// `self * t`, where `t` is the translation by `(vector2.x, vector2.y)`:
    /// the identity with `vector2.x` at `(0, 3)` and `vector2.y` at `(1, 3)`.
    pub fn translate(&self, vector2: Vector2<T>) -> (r: Matrix4x4<T>)
        requires
            specified_arith::<T>(),
            T::obeys_from_spec(),
            product_defined(self@, translation_view(vector2.x, vector2.y)),
        ensures
            r@ == product(self@, translation_view(vector2.x, vector2.y)),
    {
        let o = T::from(0i8);
        let l = T::from(1i8);
        let translate_matrix = Matrix4x4::new(
            l, o, o, vector2.x,
            o, l, o, vector2.y,
            o, o, l, o,
            o, o, o, l,
        );
        proof {
            lemma_same_cells(translate_matrix@, translation_view(vector2.x, vector2.y));
        }
        self.mul(translate_matrix)
    }
}

impl<T: Add<Output = T> + Sub<Output = T> + Mul<Output = T> + Div<Output = T> + Neg<Output = T> + Copy + From<i8>> Matrix4x4<T> {
    /// The orthographic projection that maps the box `[left, right] x
    /// [bottom, top] x [near, far]` onto the canonical clip volume. Nothing
    /// is checked: a box of zero width along an axis divides by zero, with
    /// whatever result `T`'s division gives.
    pub fn orthographic(left: T, right: T, bottom: T, top: T, near: T, far: T) -> (r: Matrix4x4<T>)
        requires
            specified_arith::<T>(),
            T::obeys_div_spec(),
            T::obeys_neg_spec(),
            T::obeys_from_spec(),
            axis_defined(left, right),
            axis_defined(bottom, top),
            axis_defined(near, far),
        ensures
            r@ == orthographic_view(left, right, bottom, top, near, far),
    {
        let o = T::from(0i8);
        let l = T::from(1i8);
        let two = T::from(2i8);
        let orthographic_projection = Matrix4x4::new(
            two / (right - left), o, o, ((right + left) / (right - left)).neg(),
            o, two / (top - bottom), o, ((top + bottom) / (top - bottom)).neg(),
            o, o, two / (far - near), ((far + near) / (far - near)).neg(),
            o, o, o, l,
        );
        proof {
            lemma_same_cells(
                orthographic_projection@,
                orthographic_view(left, right, bottom, top, near, far),
            );
        }
        orthographic_projection
    }
}

impl<T: Copy> Index<[usize; 2]> for Matrix4x4<T> {
    type Output = T;

    /// `m[[row, column]]` is the cell at `(row, column)`; see `get`.
    fn index(&self, index: [usize; 2]) -> (r: &T)
        ensures
            *r == entry(self@, index[0] as int, index[1] as int),
    {
        &self.columns[index[1]][index[0]]
    }
}

impl<T: Copy> vstd::std_specs::core::IndexSpecImpl<[usize; 2]> for Matrix4x4<T> {
    open spec fn index_req(&self, index: &[usize; 2]) -> bool {
        index[0] < 4 && index[1] < 4
    }
}

} // verus!
