//! What a brush stroke does to the mask, apart from the floating-point blend of each
//! cell: which target the stroke pulls towards and how fast, and which mask cells lie
//! in the square round the brush.

use vstd::prelude::*;
use vstd::arithmetic::div_mod::{lemma_fundamental_div_mod, lemma_fundamental_div_mod_converse};

verus! {

/// The three ways a stroke changes the mask, one per mouse button.
#[derive(Clone, Copy, Debug, PartialEq, Eq, Structural)]
pub enum StrokeKind {
    /// Primary button: pulls cells towards 0.
    TowardZero,
    /// Secondary button: pulls cells towards 1.
    TowardOne,
    /// Middle button: pulls cells towards the brush's own value.
    TowardValue,
}

/// The stroke that the pressed buttons ask for: the primary button wins over the
/// secondary one, and with neither the stroke is the middle button's.
pub open spec fn stroke_for(lbutton: bool, rbutton: bool) -> StrokeKind {
    if lbutton {
        StrokeKind::TowardZero
    } else if rbutton {
        StrokeKind::TowardOne
    } else {
        StrokeKind::TowardValue
    }
}

/// How fast each stroke moves a cell, per second of painting (before opacity).
pub open spec fn speed_of(kind: StrokeKind) -> u32 {
    match kind {
        StrokeKind::TowardZero => 10,
        StrokeKind::TowardOne => 3,
        StrokeKind::TowardValue => 5,
    }
}

impl StrokeKind {
    /// Chooses the stroke from the pressed buttons.
    pub fn from_buttons(lbutton: bool, rbutton: bool) -> (kind: StrokeKind)
        ensures
            kind == stroke_for(lbutton, rbutton),
            (kind == StrokeKind::TowardZero) == lbutton,
            (kind == StrokeKind::TowardOne) == (!lbutton && rbutton),
            (kind == StrokeKind::TowardValue) == (!lbutton && !rbutton),
    {
        if lbutton {
            StrokeKind::TowardZero
        } else if rbutton {
            StrokeKind::TowardOne
        } else {
            StrokeKind::TowardValue
        }
    }

    /// The stroke's speed factor. Pulling towards 1 is slower than pulling towards 0
    /// because white shows up faster than black.
    pub fn time_coef(&self) -> (coef: u32)
        ensures
            coef == speed_of(*self),
            coef == (match *self {
                StrokeKind::TowardZero => 10u32,
                StrokeKind::TowardOne => 3u32,
                StrokeKind::TowardValue => 5u32,
            }),
    {
        match self {
            StrokeKind::TowardZero => 10,
            StrokeKind::TowardOne => 3,
            StrokeKind::TowardValue => 5,
        }
    }
}

/// One mask cell: its column, its row, and its place in the mask (`y * size + x`).
#[derive(Clone, Copy, Debug, PartialEq, Eq, Structural)]
pub struct Cell {
    pub x: usize,
    pub y: usize,
    pub index: usize,
}

/// `hi`, lowered to `n` where it is larger.
pub open spec fn clip(hi: int, n: int) -> int {
    if hi < n {
        hi
    } else {
        n
    }
}

/// The length of the half-open span `[lo, hi)`, or 0 where it is empty.
pub open spec fn span(lo: int, hi: int) -> int {
    if lo < hi {
        hi - lo
    } else {
        0
    }
}

/// Cell `k`, taken row by row, of the rectangle whose top left cell is `(x0, y0)` and
/// whose rows are `w` cells wide, in a mask `n` cells wide.
pub open spec fn rect_cell(x0: int, y0: int, w: int, n: int, k: int) -> Cell {
    Cell {
        x: (x0 + k % w) as usize,
        y: (y0 + k / w) as usize,
        index: ((y0 + k / w) * n + x0 + k % w) as usize,
    }
}

/// The cells with `minx <= x < min(maxx, n)` and `miny <= y < min(maxy, n)`, row by row,
/// in a mask of `n` by `n` cells.
pub open spec fn brush_rect(minx: int, maxx: int, miny: int, maxy: int, n: int) -> Seq<Cell> {
    let w = span(minx, clip(maxx, n));
    let h = span(miny, clip(maxy, n));
    Seq::new((w * h) as nat, |k: int| rect_cell(minx, miny, w, n, k))
}

proof fn lemma_rect_cell(x0: int, y0: int, w: int, n: int, r: int, c: int)
    requires
        0 <= x0,
        0 <= y0,
        0 < w,
        0 <= r,
        0 <= c < w,
    ensures
        rect_cell(x0, y0, w, n, r * w + c) == (Cell {
            x: (x0 + c) as usize,
            y: (y0 + r) as usize,
            index: ((y0 + r) * n + x0 + c) as usize,
        }),
{
    lemma_fundamental_div_mod_converse(r * w + c, w, r, c);
}

/// Lists the mask cells the brush may touch: those of the square `[minx, maxx)` by
/// `[miny, maxy)`, where the upper bounds are first lowered to the mask's side `size`.
/// Cells come row by row; each one lies in the mask (see `lemma_brush_cells_in_mask`).
pub fn brush_cells(minx: usize, maxx: usize, miny: usize, maxy: usize, size: usize) -> (cells: Vec<Cell>)
    requires
        size * size <= usize::MAX,
    ensures
        cells@ == brush_rect(minx as int, maxx as int, miny as int, maxy as int, size as int),
        ({
            let hx = if maxx < size { maxx as int } else { size as int };
            let hy = if maxy < size { maxy as int } else { size as int };
            let w = if minx < hx { hx - minx } else { 0 };
            let h = if miny < hy { hy - miny } else { 0 };
            cells.len() == w * h
        }),
        forall|k: int|
            0 <= k < cells.len() ==> {
                &&& minx <= (#[trigger] cells@[k]).x < maxx
                &&& miny <= cells@[k].y < maxy
                &&& cells@[k].x < size
                &&& cells@[k].y < size
                &&& cells@[k].index == cells@[k].y * size + cells@[k].x
            },
{
    let hx = if maxx < size { maxx } else { size };
    let hy = if maxy < size { maxy } else { size };
    let mut cells: Vec<Cell> = Vec::new();
    if minx >= hx || miny >= hy {
        proof {
            assert(cells@ =~= brush_rect(minx as int, maxx as int, miny as int, maxy as int, size as int));
        }
        return cells;
    }
    let ghost n = size as int;
    let ghost w = hx - minx;
    let mut y: usize = miny;
    while y < hy
        invariant
            n == size,
            n * n <= usize::MAX,
            minx < hx <= n,
            miny <= y <= hy,
            hy <= n,
            w == hx - minx,
            cells.len() == (y - miny) * w,
            forall|k: int|
                0 <= k < cells.len() ==> #[trigger] cells@[k] == rect_cell(minx as int, miny as int, w, n, k),
        decreases hy - y,
    {
        assert(y * n + n <= n * n) by (nonlinear_arith)
            requires y < n, 0 <= y;
        let yoff = y * size;
        let mut x: usize = minx;
        while x < hx
            invariant
                n == size,
                n * n <= usize::MAX,
                minx <= x <= hx,
                hx <= n,
                miny <= y < hy,
                hy <= n,
                yoff == y * n,
                y * n + n <= n * n,
                w == hx - minx,
                cells.len() == (y - miny) * w + (x - minx),
                forall|k: int|
                    0 <= k < cells.len() ==> #[trigger] cells@[k] == rect_cell(minx as int, miny as int, w, n, k),
            decreases hx - x,
        {
            proof {
                lemma_rect_cell(minx as int, miny as int, w, n, (y - miny) as int, (x - minx) as int);
            }
            cells.push(Cell { x, y, index: x + yoff });
            x += 1;
        }
        proof {
            assert((y - miny) * w + w == (y + 1 - miny) * w) by (nonlinear_arith);
        }
        y += 1;
    }
    proof {
        let h = hy - miny;
        assert(h * w == w * h) by (nonlinear_arith);
        assert(cells@ =~= brush_rect(minx as int, maxx as int, miny as int, maxy as int, size as int));
        assert forall|k: int| 0 <= k < cells.len() implies {
            &&& minx <= (#[trigger] cells@[k]).x < maxx
            &&& miny <= cells@[k].y < maxy
            &&& cells@[k].x < size
            &&& cells@[k].y < size
            &&& cells@[k].index == cells@[k].y * size + cells@[k].x
        } by {
            lemma_brush_cells_in_mask(minx as int, maxx as int, miny as int, maxy as int, size as int, k);
        }
    }
    cells
}

/// Law: every cell the brush may touch lies in the mask and in the brush's square, and
/// its place in the mask is `y * n + x`.
pub proof fn lemma_brush_cells_in_mask(minx: int, maxx: int, miny: int, maxy: int, n: int, k: int)
    requires
        0 <= minx,
        0 <= miny,
        n * n <= usize::MAX,
        0 <= k < brush_rect(minx, maxx, miny, maxy, n).len(),
    ensures
        ({
            let c = brush_rect(minx, maxx, miny, maxy, n)[k];
            &&& minx <= c.x < maxx
            &&& miny <= c.y < maxy
            &&& c.x < n
            &&& c.y < n
            &&& c.index == c.y * n + c.x
            &&& c.index < n * n
            &&& c.x == minx + k % span(minx, clip(maxx, n))
            &&& c.y == miny + k / span(minx, clip(maxx, n))
        }),
{
    let w = span(minx, clip(maxx, n));
    let h = span(miny, clip(maxy, n));
    assert(w > 0 && h > 0) by (nonlinear_arith)
        requires 0 <= k < w * h, w >= 0, h >= 0;
    lemma_fundamental_div_mod(k, w);
    let r = k / w;
    let c = k % w;
    assert(0 <= r < h) by (nonlinear_arith)
        requires k == w * (k / w) + k % w, r == k / w, 0 <= k % w < w, 0 <= k < w * h, w > 0;
    let x = minx + c;
    let y = miny + r;
    assert(y * n + x < n * n) by (nonlinear_arith)
        requires 0 <= y < n, 0 <= x < n;
    assert(0 <= y * n) by (nonlinear_arith)
        requires 0 <= y, 0 <= n;
    assert(n <= n * n) by (nonlinear_arith)
        requires 1 <= n;
    assert(k == r * w + c) by (nonlinear_arith)
        requires k == w * (k / w) + k % w, r == k / w, c == k % w;
    lemma_rect_cell(minx, miny, w, n, r, c);
    assert(brush_rect(minx, maxx, miny, maxy, n)[k] == rect_cell(minx, miny, w, n, k));
}

/// Law: the brush never lists the same mask cell twice.
pub proof fn lemma_brush_cells_distinct(minx: int, maxx: int, miny: int, maxy: int, n: int, k1: int, k2: int)
    requires
        0 <= minx,
        0 <= miny,
        n * n <= usize::MAX,
        0 <= k1 < brush_rect(minx, maxx, miny, maxy, n).len(),
        0 <= k2 < brush_rect(minx, maxx, miny, maxy, n).len(),
        k1 != k2,
    ensures
        brush_rect(minx, maxx, miny, maxy, n)[k1].index != brush_rect(minx, maxx, miny, maxy, n)[k2].index,
{
    let cells = brush_rect(minx, maxx, miny, maxy, n);
    lemma_brush_cells_in_mask(minx, maxx, miny, maxy, n, k1);
    lemma_brush_cells_in_mask(minx, maxx, miny, maxy, n, k2);
    let w = span(minx, clip(maxx, n));
    lemma_fundamental_div_mod(k1, w);
    lemma_fundamental_div_mod(k2, w);
    if cells[k1].index == cells[k2].index {
        let c1 = cells[k1];
        let c2 = cells[k2];
        lemma_fundamental_div_mod_converse(c1.index as int, n, c1.y as int, c1.x as int);
        lemma_fundamental_div_mod_converse(c1.index as int, n, c2.y as int, c2.x as int);
        assert(c1.y == c2.y && c1.x == c2.x);
        assert(k1 / w == k2 / w && k1 % w == k2 % w);
        assert(k1 == k2) by (nonlinear_arith)
            requires k1 == w * (k1 / w) + k1 % w, k2 == w * (k2 / w) + k2 % w,
                k1 / w == k2 / w, k1 % w == k2 % w;
    }
}

/// Law: the primary button always gives a stroke towards 0; otherwise the secondary
/// button gives a stroke towards 1; with neither, the stroke goes towards the brush's
/// value. Pulling towards 1 is the slowest and towards 0 the fastest.
pub proof fn lemma_stroke_choice(lbutton: bool, rbutton: bool)
    ensures
        (stroke_for(lbutton, rbutton) == StrokeKind::TowardZero) == lbutton,
        (stroke_for(lbutton, rbutton) == StrokeKind::TowardOne) == (!lbutton && rbutton),
        (stroke_for(lbutton, rbutton) == StrokeKind::TowardValue) == (!lbutton && !rbutton),
        speed_of(StrokeKind::TowardOne) < speed_of(StrokeKind::TowardValue),
        speed_of(StrokeKind::TowardValue) < speed_of(StrokeKind::TowardZero),
{
}

/// Law: the brush lists every cell of its square, clipped to the mask, and nothing
/// else: the list holds `w * h` cells, `w` and `h` being the clipped square's width and
/// height, and the cell at column `x`, row `y` of the clipped square comes at place
/// `(y - miny) * w + (x - minx)`.
pub proof fn lemma_brush_cells_complete(
    minx: int,
    maxx: int,
    miny: int,
    maxy: int,
    n: int,
    x: int,
    y: int,
)
    requires
        0 <= minx,
        0 <= miny,
        n * n <= usize::MAX,
        minx <= x < maxx,
        x < n,
        miny <= y < maxy,
        y < n,
    ensures
        ({
            let w = (if maxx < n { maxx } else { n }) - minx;
            let h = (if maxy < n { maxy } else { n }) - miny;
            let cells = brush_rect(minx, maxx, miny, maxy, n);
            let k = (y - miny) * w + (x - minx);
            &&& cells.len() == w * h
            &&& 0 <= k < cells.len()
            &&& cells[k].x == x
            &&& cells[k].y == y
            &&& cells[k].index == y * n + x
        }),
{
    let w = clip(maxx, n) - minx;
    let h = clip(maxy, n) - miny;
    let k = (y - miny) * w + (x - minx);
    assert(0 <= k < w * h) by (nonlinear_arith)
        requires k == (y - miny) * w + (x - minx), 0 <= x - minx < w, 0 <= y - miny < h;
    lemma_rect_cell(minx, miny, w, n, y - miny, x - minx);
    assert(y * n + x < n * n) by (nonlinear_arith)
        requires 0 <= y < n, 0 <= x < n;
    assert(0 <= y * n) by (nonlinear_arith)
        requires 0 <= y, 0 <= n;
    assert(n <= n * n) by (nonlinear_arith)
        requires 1 <= n;
}

} // verus!
