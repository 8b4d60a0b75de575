//! Showing the mask on the grid: each grid vertex takes the grey level of one mask
//! cell. The mask is stored top row first while the grid is built bottom row first,
//! so the rows are flipped.

use vstd::prelude::*;
use vstd::arithmetic::div_mod::{lemma_fundamental_div_mod, lemma_fundamental_div_mod_converse};
use crate::color::{Rgba, grey};

verus! {

/// The mask cell shown by grid vertex `i` of an `n` by `n` grid: same column, row
/// counted from the other end.
pub open spec fn shown_cell(n: int, i: int) -> int {
    (n - 1 - i / n) * n + i % n
}

/// Vertex `y * n + x` shows cell `(n - 1 - y) * n + x`, which lies in the grid.
proof fn lemma_shown_cell(n: int, y: int, x: int)
    requires
        1 <= n,
        0 <= y < n,
        0 <= x < n,
    ensures
        shown_cell(n, y * n + x) == (n - 1 - y) * n + x,
        0 <= (n - 1 - y) * n + x < n * n,
        0 <= y * n + x < n * n,
{
    lemma_fundamental_div_mod_converse(y * n + x, n, y, x);
    assert(0 <= (n - 1 - y) * n + x < n * n) by (nonlinear_arith)
        requires 1 <= n, 0 <= y < n, 0 <= x < n;
    assert(0 <= y * n + x < n * n) by (nonlinear_arith)
        requires 1 <= n, 0 <= y < n, 0 <= x < n;
}

/// Law: the row flip sends every vertex of the grid to a cell of the grid, and doing
/// it twice gives back the vertex, so each mask cell is shown by exactly one vertex.
pub proof fn lemma_flip_involution(n: int, i: int)
    requires
        1 <= n,
        0 <= i < n * n,
    ensures
        0 <= shown_cell(n, i) < n * n,
        shown_cell(n, shown_cell(n, i)) == i,
{
    lemma_fundamental_div_mod(i, n);
    let y = i / n;
    let x = i % n;
    assert(i == y * n + x) by (nonlinear_arith)
        requires i == n * (i / n) + i % n, y == i / n, x == i % n;
    assert(0 <= y < n) by (nonlinear_arith)
        requires i == y * n + x, 0 <= x < n, 0 <= i < n * n, 1 <= n;
    lemma_shown_cell(n, y, x);
    lemma_shown_cell(n, n - 1 - y, x);
}

/// Writes the grey levels of the mask into the grid's vertex colours: the vertex at
/// row `y`, column `x` takes level `levels[(size - 1 - y) * size + x]` on its red,
/// green and blue channels and keeps its alpha. Colours past the grid are untouched.
pub fn shade_colors(colors: &mut Vec<Rgba>, levels: &Vec<u8>, size: usize)
    requires
        size * size <= old(colors).len(),
        size * size <= levels.len(),
    ensures
        final(colors).len() == old(colors).len(),
        forall|i: int|
            0 <= i < size * size ==> #[trigger] final(colors)@[i] == grey(
                levels@[shown_cell(size as int, i)],
                old(colors)@[i].a,
            ),
        forall|i: int|
            size * size <= i < old(colors).len() ==> #[trigger] final(colors)@[i] == old(colors)@[i],
        forall|i: int|
            0 <= i < size * size ==> {
                &&& (#[trigger] final(colors)@[i]).r == levels@[shown_cell(size as int, i)]
                &&& final(colors)@[i].g == levels@[shown_cell(size as int, i)]
                &&& final(colors)@[i].b == levels@[shown_cell(size as int, i)]
                &&& final(colors)@[i].a == old(colors)@[i].a
            },
{
    let ghost n = size as int;
    let ghost start = colors@;
    let mut idx: usize = 0;
    let mut y: usize = 0;
    while y < size
        invariant
            n == size,
            y <= n,
            idx == y * n,
            n * n <= colors.len(),
            n * n <= levels.len(),
            colors.len() == start.len(),
            forall|i: int|
                0 <= i < idx ==> #[trigger] colors@[i] == grey(levels@[shown_cell(n, i)], start[i].a),
            forall|i: int| idx <= i < colors.len() ==> #[trigger] colors@[i] == start[i],
        decreases n - y,
    {
        proof {
            lemma_shown_cell(n, y as int, 0);
        }
        let yoff = (size - 1 - y) * size;
        let mut x: usize = 0;
        while x < size
            invariant
                n == size,
                y < n,
                x <= n,
                idx == y * n + x,
                yoff == (n - 1 - y) * n,
                n * n <= colors.len(),
                n * n <= levels.len(),
                colors.len() == start.len(),
                forall|i: int|
                    0 <= i < idx ==> #[trigger] colors@[i] == grey(levels@[shown_cell(n, i)], start[i].a),
                forall|i: int| idx <= i < colors.len() ==> #[trigger] colors@[i] == start[i],
            decreases n - x,
        {
            proof {
                lemma_shown_cell(n, y as int, x as int);
            }
            let rgb_val = levels[yoff + x];
            let mut c = colors[idx];
            c.r = rgb_val;
            c.g = rgb_val;
            c.b = rgb_val;
            colors.set(idx, c);
            idx += 1;
            x += 1;
        }
        proof {
            assert(y * n + n == (y + 1) * n) by (nonlinear_arith);
        }
        y += 1;
    }
}

/// Law: grid vertex `y * n + x` (row `y`, column `x`, rows counted from the bottom)
/// shows mask cell `(n - 1 - y) * n + x`: the same column, the row counted from the top.
pub proof fn lemma_shown_cell_rows(n: int, y: int, x: int)
    requires
        1 <= n,
        0 <= y < n,
        0 <= x < n,
    ensures
        shown_cell(n, y * n + x) == (n - 1 - y) * n + x,
        0 <= (n - 1 - y) * n + x < n * n,
{
    lemma_shown_cell(n, y, x);
}

} // verus!
