//! Connectivity and colours of the two meshes the mask editor draws: the square grid
//! that shows the mask, and the round brush cursor.

use vstd::prelude::*;
use vstd::arithmetic::div_mod::{lemma_fundamental_div_mod, lemma_fundamental_div_mod_converse};

use crate::color::{Rgba, white, red, clear_red};

verus! {

// ---------------------------------------------------------------------------
// The mask grid
// ---------------------------------------------------------------------------

/// Number of square cells of a grid of `n` by `n` vertices.
pub open spec fn cell_count(n: nat) -> nat {
    if n == 0 { 0 } else { ((n - 1) * (n - 1)) as nat }
}

/// Corner `j` (0 to 5) of the two triangles that cover the cell whose lower left
/// vertex is at row `y`, column `x` of a grid `n` vertices wide. Vertices are
/// numbered row by row: the vertex at row `y`, column `x` is `y * n + x`.
pub open spec fn grid_corner(n: int, y: int, x: int, j: int) -> int {
    let off = y * n + x;
    if j == 0 {
        off
    } else if j == 1 {
        off + n
    } else if j == 2 {
        off + 1
    } else if j == 3 {
        off + n
    } else if j == 4 {
        off + n + 1
    } else {
        off + 1
    }
}

/// Entry `k` of the index list of the grid: six entries per cell, cells taken row by row.
pub open spec fn grid_index(n: int, k: int) -> int {
    let c = k / 6;
    grid_corner(n, c / (n - 1), c % (n - 1), k % 6)
}

/// The index list that triangulates a grid of `n` by `n` vertices.
pub open spec fn grid_triangles(n: nat) -> Seq<u32> {
    Seq::new(6 * cell_count(n), |k: int| grid_index(n as int, k) as u32)
}

/// The six entries of the cell at row `y`, column `x`, and the bound that keeps them
/// inside the grid.
proof fn lemma_grid_cell(n: int, y: int, x: int)
    requires
        2 <= n,
        0 <= y < n - 1,
        0 <= x < n - 1,
    ensures
        grid_index(n, 6 * (y * (n - 1) + x)) == y * n + x,
        grid_index(n, 6 * (y * (n - 1) + x) + 1) == y * n + x + n,
        grid_index(n, 6 * (y * (n - 1) + x) + 2) == y * n + x + 1,
        grid_index(n, 6 * (y * (n - 1) + x) + 3) == y * n + x + n,
        grid_index(n, 6 * (y * (n - 1) + x) + 4) == y * n + x + n + 1,
        grid_index(n, 6 * (y * (n - 1) + x) + 5) == y * n + x + 1,
        0 <= y * n,
        y * n + x + n + 1 < n * n,
        0 <= y * (n - 1) + x < (n - 1) * (n - 1),
{
    let c = y * (n - 1) + x;
    lemma_fundamental_div_mod_converse(c, n - 1, y, x);
    lemma_fundamental_div_mod_converse(6 * c, 6, c, 0);
    lemma_fundamental_div_mod_converse(6 * c + 1, 6, c, 1);
    lemma_fundamental_div_mod_converse(6 * c + 2, 6, c, 2);
    lemma_fundamental_div_mod_converse(6 * c + 3, 6, c, 3);
    lemma_fundamental_div_mod_converse(6 * c + 4, 6, c, 4);
    lemma_fundamental_div_mod_converse(6 * c + 5, 6, c, 5);
    assert(0 <= y * n && y * n + x + n + 1 < n * n) by (nonlinear_arith)
        requires 2 <= n, 0 <= y < n - 1, 0 <= x < n - 1;
    assert(0 <= y * (n - 1) + x < (n - 1) * (n - 1)) by (nonlinear_arith)
        requires 2 <= n, 0 <= y < n - 1, 0 <= x < n - 1;
}

/// Builds the index list that draws a grid of `size` by `size` vertices as two
/// triangles per cell. Every entry names a vertex of the grid
/// (see `lemma_grid_indices_in_range`).
pub fn mask_indices(size: usize) -> (indices: Vec<u32>)
    requires
        1 <= size,
        size * size <= 0x1_0000_0000,
    ensures
        indices@ == grid_triangles(size as nat),
        indices.len() == 6 * (size - 1) * (size - 1),
{
    let mut indices: Vec<u32> = Vec::new();
    let ghost n = size as int;
    let mut y: usize = 0;
    while y < size - 1
        invariant
            n == size,
            1 <= n,
            n * n <= 0x1_0000_0000,
            y <= n - 1,
            indices.len() == 6 * (y * (n - 1)),
            forall|k: int| 0 <= k < indices.len() ==> indices@[k] == grid_index(n, k) as u32,
        decreases n - 1 - y,
    {
        proof {
            lemma_grid_cell(n, y as int, 0);
        }
        let y_offset = y * size;
        let mut x: usize = 0;
        while x < size - 1
            invariant
                n == size,
                2 <= n,
                n * n <= 0x1_0000_0000,
                y < n - 1,
                x <= n - 1,
                y_offset == y * n,
                indices.len() == 6 * (y * (n - 1) + x),
                forall|k: int| 0 <= k < indices.len() ==> indices@[k] == grid_index(n, k) as u32,
            decreases n - 1 - x,
        {
            proof {
                lemma_grid_cell(n, y as int, x as int);
            }
            let off = x + y_offset;
            indices.push(off as u32);
            indices.push((off + size) as u32);
            indices.push((off + 1) as u32);
            indices.push((off + size) as u32);
            indices.push((off + size + 1) as u32);
            indices.push((off + 1) as u32);
            x += 1;
        }
        proof {
            assert(y * (n - 1) + (n - 1) == (y + 1) * (n - 1)) by (nonlinear_arith);
        }
        y += 1;
    }
    proof {
        assert(indices@ =~= grid_triangles(size as nat));
        assert(6 * ((n - 1) * (n - 1)) == 6 * (n - 1) * (n - 1)) by (nonlinear_arith);
    }
    indices
}

/// Law: every entry of the grid's index list names one of the `n * n` vertices, and
/// the three corners of every triangle are three different vertices.
pub proof fn lemma_grid_indices_in_range(n: nat, t: int)
    requires
        1 <= n,
        n * n <= 0x1_0000_0000,
        0 <= t < 2 * cell_count(n),
    ensures
        0 <= grid_triangles(n)[3 * t] < n * n,
        0 <= grid_triangles(n)[3 * t + 1] < n * n,
        0 <= grid_triangles(n)[3 * t + 2] < n * n,
        grid_triangles(n)[3 * t] != grid_triangles(n)[3 * t + 1],
        grid_triangles(n)[3 * t] != grid_triangles(n)[3 * t + 2],
        grid_triangles(n)[3 * t + 1] != grid_triangles(n)[3 * t + 2],
{
    let ni = n as int;
    assert(ni >= 2) by (nonlinear_arith)
        requires 1 <= ni, 0 <= t < 2 * cell_count(n), cell_count(n) == (ni - 1) * (ni - 1);
    let c = t / 2;
    let h = t % 2;
    lemma_fundamental_div_mod(t, 2);
    assert(0 <= c < (ni - 1) * (ni - 1));
    let y = c / (ni - 1);
    let x = c % (ni - 1);
    lemma_fundamental_div_mod(c, ni - 1);
    assert(0 <= x < ni - 1);
    assert(c == y * (ni - 1) + x) by (nonlinear_arith)
        requires c == (ni - 1) * (c / (ni - 1)) + c % (ni - 1), y == c / (ni - 1), x == c % (ni - 1);
    assert(0 <= y < ni - 1) by (nonlinear_arith)
        requires 0 <= c < (ni - 1) * (ni - 1), c == y * (ni - 1) + x, 0 <= x < ni - 1, ni >= 2;
    lemma_grid_cell(ni, y, x);
    assert(3 * t == 6 * c + 3 * h);
    if h == 0 {
        assert(grid_triangles(n)[3 * t] == (y * ni + x) as u32);
        assert(grid_triangles(n)[3 * t + 1] == (y * ni + x + ni) as u32);
        assert(grid_triangles(n)[3 * t + 2] == (y * ni + x + 1) as u32);
    } else {
        assert(grid_triangles(n)[3 * t] == (y * ni + x + ni) as u32);
        assert(grid_triangles(n)[3 * t + 1] == (y * ni + x + ni + 1) as u32);
        assert(grid_triangles(n)[3 * t + 2] == (y * ni + x + 1) as u32);
    }
}

/// Colours of the grid's vertices before any mask is shown: `count` times opaque white.
pub fn mask_colors(count: usize) -> (colors: Vec<Rgba>)
    ensures
        colors@ == Seq::new(count as nat, |i: int| white()),
        colors.len() == count,
        forall|i: int| 0 <= i < count ==> #[trigger] colors@[i] == (Rgba { r: 255, g: 255, b: 255, a: 255 }),
{
    let mut colors: Vec<Rgba> = Vec::new();
    let mut i: usize = 0;
    while i < count
        invariant
            i <= count,
            colors@ == Seq::new(i as nat, |k: int| white()),
        decreases count - i,
    {
        colors.push(Rgba::white());
        i += 1;
        proof {
            assert(colors@ =~= Seq::new(i as nat, |k: int| white()));
        }
    }
    colors
}

// ---------------------------------------------------------------------------
// The brush cursor
// ---------------------------------------------------------------------------

/// Vertices of the inner, opaque ring of the brush cursor.
pub const BRUSH_INNER_RING: usize = 32;

/// Vertices of the outer, transparent ring of the brush cursor.
pub const BRUSH_OUTER_RING: usize = 64;

/// Vertices of the brush cursor: its centre, then the inner ring, then the outer ring.
pub const BRUSH_VERTEX_COUNT: usize = 97;

/// Entries of the brush cursor's index list: three per triangle of the inner disc,
/// nine per step of the outer band.
pub const BRUSH_INDEX_COUNT: usize = 384;

/// Entry `k` of the brush cursor's index list. The first 96 entries fan the inner ring
/// (vertices 1 to 32) round the centre (vertex 0); the rest join each inner vertex `i`
/// to the outer vertices `2 i`, `2 i + 1` and `2 i + 2` (counted from vertex 33) with
/// three triangles.
pub open spec fn brush_index(k: int) -> int {
    if k < 96 {
        let i = k / 3;
        let j = k % 3;
        if j == 0 {
            0
        } else if j == 1 {
            1 + i
        } else {
            1 + (1 + i) % 32
        }
    } else {
        let i = (k - 96) / 9;
        let j = (k - 96) % 9;
        if j == 0 {
            1 + i
        } else if j == 1 {
            33 + 2 * i
        } else if j == 2 {
            33 + (2 * i + 1) % 64
        } else if j == 3 {
            1 + i
        } else if j == 4 {
            1 + (i + 1) % 32
        } else if j == 5 {
            33 + (2 * i + 1) % 64
        } else if j == 6 {
            1 + (i + 1) % 32
        } else if j == 7 {
            33 + (2 * i + 1) % 64
        } else {
            33 + (2 * i + 2) % 64
        }
    }
}

/// The index list of the brush cursor.
pub open spec fn brush_triangles() -> Seq<u16> {
    Seq::new(384, |k: int| brush_index(k) as u16)
}

/// The colours of the brush cursor's vertices: the centre and the inner ring opaque
/// red, the outer ring transparent red.
pub open spec fn brush_color(k: int) -> Rgba {
    if k < 33 {
        red()
    } else {
        clear_red()
    }
}

/// Builds the index list of the brush cursor.
pub fn brush_indices() -> (indices: Vec<u16>)
    ensures
        indices@ == brush_triangles(),
        indices.len() == BRUSH_INDEX_COUNT,
{
    let mut indices: Vec<u16> = Vec::new();
    let mut i: u16 = 0;
    // inner ring
    while i < 32
        invariant
            i <= 32,
            indices.len() == 3 * i,
            forall|k: int| 0 <= k < indices.len() ==> indices@[k] == brush_index(k) as u16,
        decreases 32 - i,
    {
        proof {
            let b = 3 * i as int;
            lemma_fundamental_div_mod_converse(b, 3, i as int, 0);
            lemma_fundamental_div_mod_converse(b + 1, 3, i as int, 1);
            lemma_fundamental_div_mod_converse(b + 2, 3, i as int, 2);
        }
        indices.push(0);
        indices.push(1 + i);
        indices.push(1 + (1 + i) % 32);
        i += 1;
    }
    // outer ring, 32 vertices inside, 64 vertices outside
    i = 0;
    while i < 32
        invariant
            i <= 32,
            indices.len() == 96 + 9 * i,
            forall|k: int| 0 <= k < indices.len() ==> indices@[k] == brush_index(k) as u16,
        decreases 32 - i,
    {
        proof {
            let b = 9 * i as int;
            lemma_fundamental_div_mod_converse(b, 9, i as int, 0);
            lemma_fundamental_div_mod_converse(b + 1, 9, i as int, 1);
            lemma_fundamental_div_mod_converse(b + 2, 9, i as int, 2);
            lemma_fundamental_div_mod_converse(b + 3, 9, i as int, 3);
            lemma_fundamental_div_mod_converse(b + 4, 9, i as int, 4);
            lemma_fundamental_div_mod_converse(b + 5, 9, i as int, 5);
            lemma_fundamental_div_mod_converse(b + 6, 9, i as int, 6);
            lemma_fundamental_div_mod_converse(b + 7, 9, i as int, 7);
            lemma_fundamental_div_mod_converse(b + 8, 9, i as int, 8);
        }
        indices.push(1 + i);
        indices.push(33 + 2 * i);
        indices.push(33 + (2 * i + 1) % 64);

        indices.push(1 + i);
        indices.push(1 + (i + 1) % 32);
        indices.push(33 + (2 * i + 1) % 64);

        indices.push(1 + (i + 1) % 32);
        indices.push(33 + (2 * i + 1) % 64);
        indices.push(33 + (2 * i + 2) % 64);
        i += 1;
    }
    proof {
        assert(indices@ =~= brush_triangles());
    }
    indices
}

/// Builds the colours of the brush cursor's vertices.
pub fn brush_colors() -> (colors: Vec<Rgba>)
    ensures
        colors@ == Seq::new(97, |k: int| brush_color(k)),
        colors.len() == BRUSH_VERTEX_COUNT,
        forall|k: int| 0 <= k < 33 ==> #[trigger] colors@[k] == (Rgba { r: 255, g: 0, b: 0, a: 255 }),
        forall|k: int| 33 <= k < 97 ==> #[trigger] colors@[k] == (Rgba { r: 255, g: 0, b: 0, a: 0 }),
{
    let mut colors: Vec<Rgba> = Vec::new();
    let mut i: usize = 0;
    while i < 33
        invariant
            i <= 33,
            colors@ == Seq::new(i as nat, |k: int| brush_color(k)),
        decreases 33 - i,
    {
        colors.push(Rgba::red());
        i += 1;
        proof {
            assert(colors@ =~= Seq::new(i as nat, |k: int| brush_color(k)));
        }
    }
    while i < 97
        invariant
            33 <= i <= 97,
            colors@ == Seq::new(i as nat, |k: int| brush_color(k)),
        decreases 97 - i,
    {
        colors.push(Rgba::new(255, 0, 0, 0));
        i += 1;
        proof {
            assert(colors@ =~= Seq::new(i as nat, |k: int| brush_color(k)));
        }
    }
    colors
}

/// Law: every entry of the brush cursor's index list names one of its 97 vertices; the
/// triangles of the inner disc (the first 32) use only the centre and the inner ring,
/// those of the outer band never use the centre; and the three corners of every
/// triangle are three different vertices.
pub proof fn lemma_brush_indices_in_range(t: int)
    requires
        0 <= t < 128,
    ensures
        brush_triangles()[3 * t] < BRUSH_VERTEX_COUNT,
        brush_triangles()[3 * t + 1] < BRUSH_VERTEX_COUNT,
        brush_triangles()[3 * t + 2] < BRUSH_VERTEX_COUNT,
        t < 32 ==> brush_triangles()[3 * t] == 0 && 1 <= brush_triangles()[3 * t + 1] < 33
            && 1 <= brush_triangles()[3 * t + 2] < 33,
        t >= 32 ==> 1 <= brush_triangles()[3 * t] && 1 <= brush_triangles()[3 * t + 1]
            && 1 <= brush_triangles()[3 * t + 2],
        brush_triangles()[3 * t] != brush_triangles()[3 * t + 1],
        brush_triangles()[3 * t] != brush_triangles()[3 * t + 2],
        brush_triangles()[3 * t + 1] != brush_triangles()[3 * t + 2],
{
    if t < 32 {
        lemma_fundamental_div_mod_converse(3 * t, 3, t, 0);
        lemma_fundamental_div_mod_converse(3 * t + 1, 3, t, 1);
        lemma_fundamental_div_mod_converse(3 * t + 2, 3, t, 2);
    } else {
        let m = 3 * t - 96;
        let i = m / 9;
        let r = m % 9;
        lemma_fundamental_div_mod(m, 9);
        assert(0 <= i < 32);
        assert(r == 0 || r == 3 || r == 6);
        lemma_fundamental_div_mod_converse(m + 1, 9, i, r + 1);
        lemma_fundamental_div_mod_converse(m + 2, 9, i, r + 2);
    }
}

/// Law: the grid's index list holds six entries per cell, and the cell at row `y`,
/// column `x` (its number `y * (n - 1) + x` counting cells row by row) is covered by the
/// triangles (`y*n+x`, `(y+1)*n+x`, `y*n+x+1`) and (`(y+1)*n+x`, `(y+1)*n+x+1`,
/// `y*n+x+1`): its lower left half and its upper right half.
pub proof fn lemma_grid_cell_triangles(n: nat, y: int, x: int)
    requires
        2 <= n,
        n * n <= 0x1_0000_0000,
        0 <= y < n - 1,
        0 <= x < n - 1,
    ensures
        grid_triangles(n).len() == 6 * (n - 1) * (n - 1),
        ({
            let b = 6 * (y * (n - 1) + x);
            let g = grid_triangles(n);
            &&& 0 <= b && b + 6 <= g.len()
            &&& g[b] == y * n + x
            &&& g[b + 1] == (y + 1) * n + x
            &&& g[b + 2] == y * n + x + 1
            &&& g[b + 3] == (y + 1) * n + x
            &&& g[b + 4] == (y + 1) * n + x + 1
            &&& g[b + 5] == y * n + x + 1
        }),
{
    let ni = n as int;
    lemma_grid_cell(ni, y, x);
    assert(6 * ((ni - 1) * (ni - 1)) == 6 * (ni - 1) * (ni - 1)) by (nonlinear_arith);
    assert(y * ni + ni == (y + 1) * ni) by (nonlinear_arith);
    let b = 6 * (y * (ni - 1) + x);
    assert(b + 6 <= 6 * (ni - 1) * (ni - 1)) by (nonlinear_arith)
        requires b == 6 * (y * (ni - 1) + x), 0 <= y * (ni - 1) + x < (ni - 1) * (ni - 1);
}

/// Law: the brush cursor's index list has 384 entries; fan triangle `t` (of 32) joins
/// the centre to the neighbouring inner-ring vertices `1 + t` and `1 + (t + 1) % 32`, so
/// the 32 triangles cover the whole inner disc.
pub proof fn lemma_brush_fan(t: int)
    requires
        0 <= t < 32,
    ensures
        brush_triangles().len() == 384,
        brush_triangles()[3 * t] == 0,
        brush_triangles()[3 * t + 1] == 1 + t,
        brush_triangles()[3 * t + 2] == 1 + (t + 1) % 32,
{
    lemma_fundamental_div_mod_converse(3 * t, 3, t, 0);
    lemma_fundamental_div_mod_converse(3 * t + 1, 3, t, 1);
    lemma_fundamental_div_mod_converse(3 * t + 2, 3, t, 2);
}

/// Law: step `t` (of 32) of the outer band joins inner-ring vertex `1 + t` and its
/// neighbour `1 + (t + 1) % 32` to outer-ring vertices `33 + 2t`, `33 + (2t + 1) % 64`
/// and `33 + (2t + 2) % 64` by three triangles, so the band closes round the ring.
pub proof fn lemma_brush_band(t: int)
    requires
        0 <= t < 32,
    ensures
        ({
            let g = brush_triangles();
            let b = 96 + 9 * t;
            &&& g[b] == 1 + t
            &&& g[b + 1] == 33 + 2 * t
            &&& g[b + 2] == 33 + (2 * t + 1) % 64
            &&& g[b + 3] == 1 + t
            &&& g[b + 4] == 1 + (t + 1) % 32
            &&& g[b + 5] == 33 + (2 * t + 1) % 64
            &&& g[b + 6] == 1 + (t + 1) % 32
            &&& g[b + 7] == 33 + (2 * t + 1) % 64
            &&& g[b + 8] == 33 + (2 * t + 2) % 64
        }),
{
    let m = 9 * t;
    lemma_fundamental_div_mod_converse(m, 9, t, 0);
    lemma_fundamental_div_mod_converse(m + 1, 9, t, 1);
    lemma_fundamental_div_mod_converse(m + 2, 9, t, 2);
    lemma_fundamental_div_mod_converse(m + 3, 9, t, 3);
    lemma_fundamental_div_mod_converse(m + 4, 9, t, 4);
    lemma_fundamental_div_mod_converse(m + 5, 9, t, 5);
    lemma_fundamental_div_mod_converse(m + 6, 9, t, 6);
    lemma_fundamental_div_mod_converse(m + 7, 9, t, 7);
    lemma_fundamental_div_mod_converse(m + 8, 9, t, 8);
}

/// Law: the brush cursor's centre and inner ring are opaque red and its outer ring is
/// fully transparent red; the grid starts out opaque white.
pub proof fn lemma_cursor_and_grid_colors(k: int)
    ensures
        0 <= k < 33 ==> brush_color(k) == (Rgba { r: 255, g: 0, b: 0, a: 255 }),
        33 <= k < 97 ==> brush_color(k) == (Rgba { r: 255, g: 0, b: 0, a: 0 }),
        white() == (Rgba { r: 255, g: 255, b: 255, a: 255 }),
{
}

} // verus!
