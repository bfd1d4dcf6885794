//! The static layouts of the button grid: 10 rows of 10 cell values each,
//! with the highest-valued row on top.

use vstd::prelude::*;

verus! {

/// The value of the cell at `row`, `col` (both 0-indexed from the top left)
/// in the multiplication-table layout: the bottom row is the 1-times table,
/// the top row the 10-times table.
pub open spec fn table_cell(row: int, col: int) -> int {
    (10 - row) * (col + 1)
}

/// The value of the cell at `row`, `col` (both 0-indexed from the top left)
/// in the sequential layout: the bottom row is 1..=10, the top row 91..=100.
pub open spec fn ordered_cell(row: int, col: int) -> int {
    (9 - row) * 10 + (col + 1)
}

/// The multiplication-table grid layout: cell = row factor times column
/// factor, rows reversed so the largest products sit on top. An alternative
/// layout; the sequential one feeds the active view.
pub fn multiplication_table() -> (r: Vec<Vec<i32>>)
    ensures
        r@.len() == 10,
        forall|i: int| 0 <= i < 10 ==> #[trigger] r@[i]@.len() == 10,
        forall|i: int, j: int|
            0 <= i < 10 && 0 <= j < 10 ==> #[trigger] r@[i]@[j] == table_cell(i, j),
{
    let mut values: Vec<Vec<i32>> = Vec::new();
    let mut i: usize = 0;
    while i < 10
        invariant
            i <= 10,
            values@.len() == i,
            forall|k: int| 0 <= k < i ==> #[trigger] values@[k]@.len() == 10,
            forall|k: int, j: int|
                0 <= k < i && 0 <= j < 10 ==> #[trigger] values@[k]@[j] == table_cell(k, j),
        decreases 10 - i,
    {
        let factor: i32 = 10 - (i as i32);
        let mut inner: Vec<i32> = Vec::new();
        let mut j: usize = 0;
        while j < 10
            invariant
                j <= 10,
                1 <= factor <= 10,
                factor == 10 - i,
                inner@.len() == j,
                forall|m: int| 0 <= m < j ==> #[trigger] inner@[m] == factor * (m + 1),
            decreases 10 - j,
        {
            proof {
                assert(1 <= factor * (j + 1) <= 100) by (nonlinear_arith)
                    requires
                        1 <= factor <= 10,
                        0 <= j < 10,
                ;
            }
            inner.push(factor * ((j as i32) + 1));
            j += 1;
        }
        values.push(inner);
        i += 1;
    }
    values
}

/// The sequential grid layout: the cells count 1..=100, ten per row, rows
/// reversed so 91..=100 sit on top. This layout feeds the active view.
pub fn ordered_numbers() -> (r: Vec<Vec<i32>>)
    ensures
        r@.len() == 10,
        forall|i: int| 0 <= i < 10 ==> #[trigger] r@[i]@.len() == 10,
        forall|i: int, j: int|
            0 <= i < 10 && 0 <= j < 10 ==> #[trigger] r@[i]@[j] == ordered_cell(i, j),
{
    let mut values: Vec<Vec<i32>> = Vec::new();
    let mut i: usize = 0;
    while i < 10
        invariant
            i <= 10,
            values@.len() == i,
            forall|k: int| 0 <= k < i ==> #[trigger] values@[k]@.len() == 10,
            forall|k: int, j: int|
                0 <= k < i && 0 <= j < 10 ==> #[trigger] values@[k]@[j] == ordered_cell(k, j),
        decreases 10 - i,
    {
        let base: i32 = (9 - (i as i32)) * 10;
        let mut inner: Vec<i32> = Vec::new();
        let mut j: usize = 0;
        while j < 10
            invariant
                j <= 10,
                0 <= base <= 90,
                base == (9 - i) * 10,
                inner@.len() == j,
                forall|m: int| 0 <= m < j ==> #[trigger] inner@[m] == base + m + 1,
            decreases 10 - j,
        {
            inner.push(base + (j as i32) + 1);
            j += 1;
        }
        values.push(inner);
        i += 1;
    }
    values
}

} // verus!
