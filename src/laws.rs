use vstd::prelude::*;
use vstd::arithmetic::mul::lemma_mul_is_associative;
use crate::matrix4x4::{
    entry, entry_defined, identity_view, lemma_position, lemma_same_cells, product,
    product_defined, product_entry, Matrix4x4,
};

verus! {

/// Multiplication distributes over a sum of four, on the right.
proof fn lemma_distribute_right(x0: int, x1: int, x2: int, x3: int, y: int)
    ensures
        (x0 + x1 + x2 + x3) * y == x0 * y + x1 * y + x2 * y + x3 * y,
{
    assert((x0 + x1 + x2 + x3) * y == x0 * y + x1 * y + x2 * y + x3 * y) by (nonlinear_arith);
}

/// Multiplication distributes over a sum of four, on the left.
proof fn lemma_distribute_left(y: int, x0: int, x1: int, x2: int, x3: int)
    ensures
        y * (x0 + x1 + x2 + x3) == y * x0 + y * x1 + y * x2 + y * x3,
{
    assert(y * (x0 + x1 + x2 + x3) == y * x0 + y * x1 + y * x2 + y * x3) by (nonlinear_arith);
}

/// Moving the sum over the middle index out of a row-column product of
/// three factors leaves its value unchanged.
proof fn lemma_regroup(
    a0: int, a1: int, a2: int, a3: int,
    b00: int, b01: int, b02: int, b03: int,
    b10: int, b11: int, b12: int, b13: int,
    b20: int, b21: int, b22: int, b23: int,
    b30: int, b31: int, b32: int, b33: int,
    c0: int, c1: int, c2: int, c3: int,
)
    ensures
        (a0 * b00 + a1 * b10 + a2 * b20 + a3 * b30) * c0
            + (a0 * b01 + a1 * b11 + a2 * b21 + a3 * b31) * c1
            + (a0 * b02 + a1 * b12 + a2 * b22 + a3 * b32) * c2
            + (a0 * b03 + a1 * b13 + a2 * b23 + a3 * b33) * c3
        == a0 * (b00 * c0 + b01 * c1 + b02 * c2 + b03 * c3)
            + a1 * (b10 * c0 + b11 * c1 + b12 * c2 + b13 * c3)
            + a2 * (b20 * c0 + b21 * c1 + b22 * c2 + b23 * c3)
            + a3 * (b30 * c0 + b31 * c1 + b32 * c2 + b33 * c3),
{
    lemma_distribute_right(a0 * b00, a1 * b10, a2 * b20, a3 * b30, c0);
    lemma_distribute_right(a0 * b01, a1 * b11, a2 * b21, a3 * b31, c1);
    lemma_distribute_right(a0 * b02, a1 * b12, a2 * b22, a3 * b32, c2);
    lemma_distribute_right(a0 * b03, a1 * b13, a2 * b23, a3 * b33, c3);
    lemma_distribute_left(a0, b00 * c0, b01 * c1, b02 * c2, b03 * c3);
    lemma_distribute_left(a1, b10 * c0, b11 * c1, b12 * c2, b13 * c3);
    lemma_distribute_left(a2, b20 * c0, b21 * c1, b22 * c2, b23 * c3);
    lemma_distribute_left(a3, b30 * c0, b31 * c1, b32 * c2, b33 * c3);
    lemma_mul_is_associative(a0, b00, c0);
    lemma_mul_is_associative(a0, b01, c1);
    lemma_mul_is_associative(a0, b02, c2);
    lemma_mul_is_associative(a0, b03, c3);
    lemma_mul_is_associative(a1, b10, c0);
    lemma_mul_is_associative(a1, b11, c1);
    lemma_mul_is_associative(a1, b12, c2);
    lemma_mul_is_associative(a1, b13, c3);
    lemma_mul_is_associative(a2, b20, c0);
    lemma_mul_is_associative(a2, b21, c1);
    lemma_mul_is_associative(a2, b22, c2);
    lemma_mul_is_associative(a2, b23, c3);
    lemma_mul_is_associative(a3, b30, c0);
    lemma_mul_is_associative(a3, b31, c1);
    lemma_mul_is_associative(a3, b32, c2);
    lemma_mul_is_associative(a3, b33, c3);
}

/// With `i64` scalars, a cell of a product that can be computed is the
/// exact integer sum of its four products.
proof fn lemma_entry_exact(a: Seq<i64>, b: Seq<i64>, row: int, column: int)
    requires
        entry_defined(a, b, row, column),
    ensures
        product_entry(a, b, row, column) as int
            == entry(a, row, 0) * entry(b, 0, column) + entry(a, row, 1) * entry(b, 1, column)
            + entry(a, row, 2) * entry(b, 2, column) + entry(a, row, 3) * entry(b, 3, column),
{
}

/// With `i64` scalars, cell `(row, column)` of a product is the value that
/// `product_entry` gives it.
proof fn lemma_product_cell(a: Seq<i64>, b: Seq<i64>, row: int, column: int)
    requires
        0 <= row < 4,
        0 <= column < 4,
    ensures
        entry(product(a, b), row, column) == product_entry(a, b, row, column),
{
    lemma_position(row, column);
}

/// Matrix multiplication is associative on `i64` matrices, wherever the
/// four products involved can be computed without overflow:
/// `(a * b) * c == a * (b * c)`.
pub proof fn lemma_mul_associative(a: Matrix4x4<i64>, b: Matrix4x4<i64>, c: Matrix4x4<i64>)
    requires
        product_defined(a@, b@),
        product_defined(b@, c@),
        product_defined(product(a@, b@), c@),
        product_defined(a@, product(b@, c@)),
    ensures
        product(product(a@, b@), c@) == product(a@, product(b@, c@)),
{
    let ab = product(a@, b@);
    let bc = product(b@, c@);
    let lhs = product(ab, c@);
    let rhs = product(a@, bc);
    assert forall|row: int, column: int| 0 <= row < 4 && 0 <= column < 4 implies #[trigger] entry(
        lhs,
        row,
        column,
    ) == entry(rhs, row, column) by {
        lemma_product_cell(ab, c@, row, column);
        lemma_product_cell(a@, bc, row, column);
        lemma_entry_exact(ab, c@, row, column);
        lemma_entry_exact(a@, bc, row, column);
        assert forall|k: int| 0 <= k < 4 implies entry(ab, row, k) as int == #[trigger] entry(a@, row, 0)
            * entry(b@, 0, k) + entry(a@, row, 1) * entry(b@, 1, k) + entry(a@, row, 2) * entry(
            b@,
            2,
            k,
        ) + entry(a@, row, 3) * entry(b@, 3, k) && entry(bc, k, column) as int == entry(b@, k, 0)
            * entry(c@, 0, column) + entry(b@, k, 1) * entry(c@, 1, column) + entry(b@, k, 2)
            * entry(c@, 2, column) + entry(b@, k, 3) * entry(c@, 3, column) by {
            lemma_product_cell(a@, b@, row, k);
            lemma_product_cell(b@, c@, k, column);
            lemma_entry_exact(a@, b@, row, k);
            lemma_entry_exact(b@, c@, k, column);
        }
        lemma_regroup(
            entry(a@, row, 0) as int, entry(a@, row, 1) as int, entry(a@, row, 2) as int, entry(a@, row, 3) as int,
            entry(b@, 0, 0) as int, entry(b@, 0, 1) as int, entry(b@, 0, 2) as int, entry(b@, 0, 3) as int,
            entry(b@, 1, 0) as int, entry(b@, 1, 1) as int, entry(b@, 1, 2) as int, entry(b@, 1, 3) as int,
            entry(b@, 2, 0) as int, entry(b@, 2, 1) as int, entry(b@, 2, 2) as int, entry(b@, 2, 3) as int,
            entry(b@, 3, 0) as int, entry(b@, 3, 1) as int, entry(b@, 3, 2) as int, entry(b@, 3, 3) as int,
            entry(c@, 0, column) as int, entry(c@, 1, column) as int, entry(c@, 2, column) as int, entry(c@, 3, column) as int,
        );
    }
    lemma_same_cells(lhs, rhs);
}

/// Cell `(row, column)` of the identity is one on the diagonal and zero
/// elsewhere.
proof fn lemma_identity_cell(row: int, column: int)
    requires
        0 <= row < 4,
        0 <= column < 4,
    ensures
        entry(identity_view::<i64>(), row, column) == if row == column { 1i64 } else { 0i64 },
{
    lemma_position(row, column);
}

/// Cell `(row, column)` of `m * identity` can be computed and is cell
/// `(row, column)` of `m`.
proof fn lemma_right_identity_entry(m: Seq<i64>, row: int, column: int)
    requires
        0 <= row < 4,
        0 <= column < 4,
    ensures
        entry_defined(m, identity_view::<i64>(), row, column),
        entry(product(m, identity_view::<i64>()), row, column) == entry(m, row, column),
{
    let id = identity_view::<i64>();
    lemma_product_cell(m, id, row, column);
    lemma_identity_cell(0, column);
    lemma_identity_cell(1, column);
    lemma_identity_cell(2, column);
    lemma_identity_cell(3, column);
    let x = entry(m, row, column);
    if column == 0 {
        assert(product_entry(m, id, row, column) == x);
    } else if column == 1 {
        assert(product_entry(m, id, row, column) == x);
    } else if column == 2 {
        assert(product_entry(m, id, row, column) == x);
    } else {
        assert(product_entry(m, id, row, column) == x);
    }
}

/// Cell `(row, column)` of `identity * m` can be computed and is cell
/// `(row, column)` of `m`.
proof fn lemma_left_identity_entry(m: Seq<i64>, row: int, column: int)
    requires
        0 <= row < 4,
        0 <= column < 4,
    ensures
        entry_defined(identity_view::<i64>(), m, row, column),
        entry(product(identity_view::<i64>(), m), row, column) == entry(m, row, column),
{
    let id = identity_view::<i64>();
    lemma_product_cell(id, m, row, column);
    lemma_identity_cell(row, 0);
    lemma_identity_cell(row, 1);
    lemma_identity_cell(row, 2);
    lemma_identity_cell(row, 3);
    let x = entry(m, row, column);
    if row == 0 {
        assert(product_entry(id, m, row, column) == x);
    } else if row == 1 {
        assert(product_entry(id, m, row, column) == x);
    } else if row == 2 {
        assert(product_entry(id, m, row, column) == x);
    } else {
        assert(product_entry(id, m, row, column) == x);
    }
}

/// The identity is neutral for matrix multiplication on `i64` matrices, on
/// either side: both products can always be computed, and each gives `m`
/// back exactly.
pub proof fn lemma_mul_identity(m: Matrix4x4<i64>)
    ensures
        product_defined(m@, identity_view::<i64>()),
        product_defined(identity_view::<i64>(), m@),
        product(m@, identity_view::<i64>()) == m@,
        product(identity_view::<i64>(), m@) == m@,
{
    let id = identity_view::<i64>();
    m.lemma_len();
    assert forall|row: int, column: int|
        0 <= row < 4 && 0 <= column < 4 implies #[trigger] entry_defined(m@, id, row, column) && entry(
            product(m@, id),
            row,
            column,
        ) == entry(m@, row, column) by {
        lemma_right_identity_entry(m@, row, column);
    }
    assert forall|row: int, column: int|
        0 <= row < 4 && 0 <= column < 4 implies #[trigger] entry_defined(id, m@, row, column) && entry(
            product(id, m@),
            row,
            column,
        ) == entry(m@, row, column) by {
        lemma_left_identity_entry(m@, row, column);
    }
    lemma_right_identity_entry(m@, 0, 0);
    lemma_right_identity_entry(m@, 0, 1);
    lemma_right_identity_entry(m@, 0, 2);
    lemma_right_identity_entry(m@, 0, 3);
    lemma_right_identity_entry(m@, 1, 0);
    lemma_right_identity_entry(m@, 1, 1);
    lemma_right_identity_entry(m@, 1, 2);
    lemma_right_identity_entry(m@, 1, 3);
    lemma_right_identity_entry(m@, 2, 0);
    lemma_right_identity_entry(m@, 2, 1);
    lemma_right_identity_entry(m@, 2, 2);
    lemma_right_identity_entry(m@, 2, 3);
    lemma_right_identity_entry(m@, 3, 0);
    lemma_right_identity_entry(m@, 3, 1);
    lemma_right_identity_entry(m@, 3, 2);
    lemma_right_identity_entry(m@, 3, 3);
    lemma_same_cells(product(m@, id), m@);
    lemma_left_identity_entry(m@, 0, 0);
    lemma_left_identity_entry(m@, 0, 1);
    lemma_left_identity_entry(m@, 0, 2);
    lemma_left_identity_entry(m@, 0, 3);
    lemma_left_identity_entry(m@, 1, 0);
    lemma_left_identity_entry(m@, 1, 1);
    lemma_left_identity_entry(m@, 1, 2);
    lemma_left_identity_entry(m@, 1, 3);
    lemma_left_identity_entry(m@, 2, 0);
    lemma_left_identity_entry(m@, 2, 1);
    lemma_left_identity_entry(m@, 2, 2);
    lemma_left_identity_entry(m@, 2, 3);
    lemma_left_identity_entry(m@, 3, 0);
    lemma_left_identity_entry(m@, 3, 1);
    lemma_left_identity_entry(m@, 3, 2);
    lemma_left_identity_entry(m@, 3, 3);
    lemma_same_cells(product(id, m@), m@);
}

} // verus!
