//! Rectangular grids of flags and how many of them are set.
use vstd::prelude::*;

verus! {

/// The grid has `rows` rows of `cols` flags each.
pub open spec fn grid_shape(grid: Seq<Vec<bool>>, rows: int, cols: int) -> bool {
    &&& grid.len() == rows
    &&& forall|r: int| 0 <= r < rows ==> (#[trigger] grid[r])@.len() == cols
}

/// The flag in row `r`, column `c`.
pub open spec fn cell(grid: Seq<Vec<bool>>, r: int, c: int) -> bool {
    grid[r]@[c]
}

/// How many flags of a row are set.
pub open spec fn row_count(row: Seq<bool>) -> nat
    decreases row.len(),
{
    if row.len() == 0 {
        0
    } else {
        row_count(row.drop_last()) + (if row.last() {
            1nat
        } else {
            0nat
        })
    }
}

/// How many flags of the grid are set.
pub open spec fn grid_count(grid: Seq<Vec<bool>>) -> nat
    decreases grid.len(),
{
    if grid.len() == 0 {
        0
    } else {
        grid_count(grid.drop_last()) + row_count(grid.last()@)
    }
}

/// The grid after setting the flag in row `r`, column `c`.
pub open spec fn cell_set(
    before: Seq<Vec<bool>>,
    after: Seq<Vec<bool>>,
    r: int,
    c: int,
) -> bool {
    &&& after.len() == before.len()
    &&& after[r]@ == before[r]@.update(c, true)
    &&& forall|i: int| 0 <= i < before.len() && i != r ==> #[trigger] after[i] == before[i]
}

/// A row of `len` flags, none set.
pub fn new_row(len: usize) -> (row: Vec<bool>)
    ensures
        row@ == Seq::new(len as nat, |i: int| false),
{
    let mut row: Vec<bool> = Vec::new();
    let mut i: usize = 0;
    while i < len
        invariant
            i <= len,
            row@ == Seq::new(i as nat, |k: int| false),
        decreases len - i,
    {
        row.push(false);
        i = i + 1;
        assert(row@ =~= Seq::new(i as nat, |k: int| false));
    }
    row
}

/// A grid of flags, none set.
pub fn new_grid(rows: usize, cols: usize) -> (grid: Vec<Vec<bool>>)
    ensures
        grid_shape(grid@, rows as int, cols as int),
        forall|r: int, c: int| 0 <= r < rows && 0 <= c < cols ==> !#[trigger] cell(grid@, r, c),
        grid_count(grid@) == 0,
{
    let mut grid: Vec<Vec<bool>> = Vec::new();
    let mut r: usize = 0;
    while r < rows
        invariant
            r <= rows,
            grid_shape(grid@, r as int, cols as int),
            forall|i: int, c: int| 0 <= i < r && 0 <= c < cols ==> !#[trigger] cell(grid@, i, c),
            grid_count(grid@) == 0,
        decreases rows - r,
    {
        let row: Vec<bool> = new_row(cols);
        let ghost before = grid@;
        proof {
            lemma_no_flag_set(row@);
        }
        grid.push(row);
        assert(grid@.drop_last() =~= before);
        assert forall|i: int, c: int| 0 <= i < r + 1 && 0 <= c < cols implies !#[trigger] cell(
            grid@,
            i,
            c,
        ) by {
            if i < r {
                assert(grid@[i] == before[i]);
                assert(!cell(before, i, c));
            }
        }
        r = r + 1;
    }
    grid
}

/// Sets one flag.
pub fn set_cell(grid: &mut Vec<Vec<bool>>, r: usize, c: usize)
    requires
        r < old(grid)@.len(),
        c < old(grid)@[r as int]@.len(),
    ensures
        cell_set(old(grid)@, final(grid)@, r as int, c as int),
{
    let row = &mut grid[r];
    row[c] = true;
}

/// Whether every flag of the first `cols` columns in row `r` is set.
pub fn row_all_set(grid: &Vec<Vec<bool>>, r: usize, from: usize, to: usize) -> (all: bool)
    requires
        r < grid@.len(),
        to <= grid@[r as int]@.len(),
    ensures
        all == (forall|c: int| from <= c < to ==> #[trigger] cell(grid@, r as int, c)),
{
    let mut c: usize = from;
    while c < to
        invariant
            r < grid@.len(),
            to <= grid@[r as int]@.len(),
            from <= c,
            c <= to || c == from,
            forall|i: int| from <= i < c ==> #[trigger] cell(grid@, r as int, i),
        decreases to - c,
    {
        if !grid[r][c] {
            assert(!cell(grid@, r as int, c as int));
            return false;
        }
        c = c + 1;
    }
    true
}

pub proof fn lemma_no_flag_set(row: Seq<bool>)
    requires
        forall|i: int| 0 <= i < row.len() ==> !row[i],
    ensures
        row_count(row) == 0,
    decreases row.len(),
{
    if row.len() > 0 {
        lemma_no_flag_set(row.drop_last());
    }
}

/// A row holds at most as many set flags as it is long, and exactly as many
/// only where all are set.
pub proof fn lemma_row_count_bound(row: Seq<bool>)
    ensures
        row_count(row) <= row.len(),
        row_count(row) == row.len() <==> (forall|i: int| 0 <= i < row.len() ==> row[i]),
    decreases row.len(),
{
    if row.len() > 0 {
        let front = row.drop_last();
        lemma_row_count_bound(front);
        if row_count(row) == row.len() {
            assert forall|i: int| 0 <= i < row.len() implies row[i] by {
                if i < front.len() {
                    assert(front[i]);
                }
            }
        }
        if forall|i: int| 0 <= i < row.len() ==> row[i] {
            assert forall|i: int| 0 <= i < front.len() implies front[i] by {
                assert(row[i]);
            }
            assert(row[row.len() - 1]);
        }
    }
}

/// Setting a flag that was not set adds one to the count of its row.
pub proof fn lemma_row_count_set(row: Seq<bool>, i: int)
    requires
        0 <= i < row.len(),
        !row[i],
    ensures
        row_count(row.update(i, true)) == row_count(row) + 1,
    decreases row.len(),
{
    let after = row.update(i, true);
    if i == row.len() - 1 {
        assert(after.drop_last() =~= row.drop_last());
    } else {
        lemma_row_count_set(row.drop_last(), i);
        assert(after.drop_last() =~= row.drop_last().update(i, true));
    }
}

/// Clearing a flag that was set takes one from the count of its row.
pub proof fn lemma_row_count_clear(row: Seq<bool>, i: int)
    requires
        0 <= i < row.len(),
        row[i],
    ensures
        row_count(row.update(i, false)) + 1 == row_count(row),
{
    let cleared = row.update(i, false);
    lemma_row_count_set(cleared, i);
    assert(cleared.update(i, true) =~= row);
}

/// Setting a flag that was not set adds one to the count of the grid.
pub proof fn lemma_grid_count_set(before: Seq<Vec<bool>>, after: Seq<Vec<bool>>, r: int, c: int)
    requires
        0 <= r < before.len(),
        0 <= c < before[r]@.len(),
        !cell(before, r, c),
        cell_set(before, after, r, c),
    ensures
        grid_count(after) == grid_count(before) + 1,
    decreases before.len(),
{
    if r == before.len() - 1 {
        assert(after.drop_last() =~= before.drop_last());
        lemma_row_count_set(before[r]@, c);
    } else {
        let short_before = before.drop_last();
        let short_after = after.drop_last();
        assert(cell_set(short_before, short_after, r, c)) by {
            assert forall|i: int| 0 <= i < short_before.len() && i != r implies #[trigger]
            short_after[i] == short_before[i] by {
                assert(after[i] == before[i]);
            }
        }
        lemma_grid_count_set(short_before, short_after, r, c);
        assert(after[before.len() - 1] == before[before.len() - 1]);
    }
}

/// A grid holds at most `rows * cols` set flags, and exactly as many only
/// where all are set.
pub proof fn lemma_grid_count_bound(grid: Seq<Vec<bool>>, cols: int)
    requires
        cols >= 0,
        grid_shape(grid, grid.len() as int, cols),
    ensures
        grid_count(grid) <= grid.len() * cols,
        grid_count(grid) == grid.len() * cols <==> (forall|r: int, c: int|
            0 <= r < grid.len() && 0 <= c < cols ==> #[trigger] cell(grid, r, c)),
    decreases grid.len(),
{
    if grid.len() > 0 {
        let front = grid.drop_last();
        let last = grid.len() - 1;
        assert(grid_shape(front, front.len() as int, cols)) by {
            assert forall|r: int| 0 <= r < front.len() implies (#[trigger] front[r])@.len()
                == cols by {
                assert(grid[r]@.len() == cols);
            }
        }
        lemma_grid_count_bound(front, cols);
        lemma_row_count_bound(grid[last]@);
        assert(grid[last]@.len() == cols);
        assert(grid.len() * cols == front.len() * cols + cols) by (nonlinear_arith)
            requires
                grid.len() == front.len() + 1,
        ;
        if grid_count(grid) == grid.len() * cols {
            assert forall|r: int, c: int| 0 <= r < grid.len() && 0 <= c < cols implies #[trigger] cell(
                grid,
                r,
                c,
            ) by {
                if r < last {
                    assert(cell(front, r, c));
                } else {
                    assert(grid[last]@[c]);
                }
            }
        }
        if forall|r: int, c: int| 0 <= r < grid.len() && 0 <= c < cols ==> #[trigger] cell(grid, r, c) {
            assert forall|r: int, c: int| 0 <= r < front.len() && 0 <= c < cols implies #[trigger] cell(
                front,
                r,
                c,
            ) by {
                assert(cell(grid, r, c));
            }
            assert forall|c: int| 0 <= c < cols implies grid[last]@[c] by {
                assert(cell(grid, last, c));
            }
        }
    } else {
        assert(grid.len() * cols == 0) by (nonlinear_arith)
            requires
                grid.len() == 0,
        ;
    }
}

} // verus!
