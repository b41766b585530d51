use vstd::prelude::*;

use crate::pos::Pos;

verus! {

/// Columns kept free on each side of the play area when a wave is laid out.
pub const SIDE_MARGIN: u16 = 2;

/// Horizontal distance between two neighbouring enemies of a wave.
pub open spec fn spacing(width: u16, cols: usize) -> int {
    let usable: int = if width >= 4 { width - 4 } else { 0 };
    let s = usable / (cols + 1);
    if s >= 1 { s } else { 1 }
}

/// Column of the enemies in formation column `c`.
pub open spec fn column_x(width: u16, cols: usize, c: int) -> int {
    2 + spacing(width, cols) * (c + 1)
}

/// Row of the enemies in formation row `r`.
pub open spec fn row_y(r: int) -> int {
    2 + 2 * r
}

/// A slot of the formation is only kept when it falls inside the spawn area.
pub open spec fn in_spawn_area(width: u16, height: u16, x: int, y: int) -> bool {
    x < width - 1 && y < height - 2
}

/// The kept slots of formation row `r`, among its first `n` columns, left to right.
pub open spec fn formation_row(width: u16, height: u16, cols: usize, r: int, n: nat) -> Seq<Pos>
    decreases n,
{
    if n == 0 {
        seq![]
    } else {
        let prev = formation_row(width, height, cols, r, (n - 1) as nat);
        let x = column_x(width, cols, n - 1);
        let y = row_y(r);
        if in_spawn_area(width, height, x, y) {
            prev.push(Pos { x: x as u16, y: y as u16 })
        } else {
            prev
        }
    }
}

/// The kept slots of the first `n` formation rows, row after row.
pub open spec fn formation_rows(width: u16, height: u16, cols: usize, n: nat) -> Seq<Pos>
    decreases n,
{
    if n == 0 {
        seq![]
    } else {
        formation_rows(width, height, cols, (n - 1) as nat) + formation_row(
            width,
            height,
            cols,
            n - 1,
            cols as nat,
        )
    }
}

/// The wave of `rows` by `cols` enemies laid out on a `width` by `height` area.
pub open spec fn formation_seq(width: u16, height: u16, rows: usize, cols: usize) -> Seq<Pos> {
    formation_rows(width, height, cols, rows as nat)
}

proof fn lemma_column_x_monotone(width: u16, cols: usize, c1: int, c2: int)
    requires
        0 <= c1 <= c2,
    ensures
        column_x(width, cols, c1) <= column_x(width, cols, c2),
{
    let s = spacing(width, cols);
    assert(s * (c1 + 1) <= s * (c2 + 1)) by (nonlinear_arith)
        requires
            s >= 1,
            c1 <= c2,
    ;
}

/// Once a column leaves the spawn area, every column to its right does too.
proof fn lemma_row_tail(width: u16, height: u16, cols: usize, r: int, c1: nat, c2: nat)
    requires
        c1 <= c2,
        column_x(width, cols, c1 as int) >= width - 1,
    ensures
        formation_row(width, height, cols, r, c2) == formation_row(width, height, cols, r, c1),
    decreases c2,
{
    if c2 > c1 {
        lemma_column_x_monotone(width, cols, c1 as int, c2 - 1);
        lemma_row_tail(width, height, cols, r, c1, (c2 - 1) as nat);
    }
}

/// A row below the spawn area keeps no slot.
proof fn lemma_row_empty(width: u16, height: u16, cols: usize, r: int, n: nat)
    requires
        row_y(r) >= height - 2,
    ensures
        formation_row(width, height, cols, r, n) == Seq::<Pos>::empty(),
    decreases n,
{
    if n > 0 {
        lemma_row_empty(width, height, cols, r, (n - 1) as nat);
    }
}

/// Once a row leaves the spawn area, every row below it does too.
proof fn lemma_rows_tail(width: u16, height: u16, cols: usize, r1: nat, r2: nat)
    requires
        r1 <= r2,
        row_y(r1 as int) >= height - 2,
    ensures
        formation_rows(width, height, cols, r2) == formation_rows(width, height, cols, r1),
    decreases r2,
{
    if r2 > r1 {
        lemma_rows_tail(width, height, cols, r1, (r2 - 1) as nat);
        lemma_row_empty(width, height, cols, r2 - 1, cols as nat);
        assert(formation_rows(width, height, cols, (r2 - 1) as nat) + Seq::<Pos>::empty()
            =~= formation_rows(width, height, cols, (r2 - 1) as nat));
    }
}

/// Lays out a wave: `rows` by `cols` slots, two rows apart from row 2 on, evenly spaced
/// between the side margins; slots outside the spawn area are left out.
pub fn formation(width: u16, height: u16, rows: usize, cols: usize) -> (r: Vec<Pos>)
    ensures
        r@ == formation_seq(width, height, rows, cols),
{
    let usable: u16 = width.saturating_sub(SIDE_MARGIN + SIDE_MARGIN);
    let q: usize = if cols < usize::MAX {
        (usable as usize) / (cols + 1)
    } else {
        0
    };
    let step: u64 = if q >= 1 {
        q as u64
    } else {
        1
    };
    assert(step == spacing(width, cols)) by {
        if cols == usize::MAX {
            assert(usable as int / (cols + 1) == 0) by (nonlinear_arith)
                requires
                    0 <= usable <= 65535,
                    cols + 1 > 65535,
            ;
        }
    }
    assert(step <= 65535) by (nonlinear_arith)
        requires
            q == usable as int / (cols + 1),
            0 <= usable <= 65535,
            cols >= 0,
            step == (if q >= 1 { q } else { 1 }),
    ;
    let mut out: Vec<Pos> = Vec::new();
    let mut r: usize = 0;
    let mut y: u64 = 2;
    while r < rows && y + 2 < height as u64
        invariant
            r <= rows,
            y == row_y(r as int),
            y <= 65536,
            step == spacing(width, cols),
            step <= 65535,
            out@ == formation_rows(width, height, cols, r as nat),
        decreases rows - r,
    {
        let ghost before = out@;
        let mut c: usize = 0;
        let mut x: u64 = 2 + step;
        while c < cols && x + 1 < width as u64
            invariant
                r < rows,
                c <= cols,
                y == row_y(r as int),
                y + 2 < height,
                x == column_x(width, cols, c as int),
                x <= 2 * 65536,
                step == spacing(width, cols),
                step <= 65535,
                out@ == before + formation_row(width, height, cols, r as int, c as nat),
            decreases cols - c,
        {
            assert(step * (c + 2) == step * (c + 1) + step) by (nonlinear_arith);
            out.push(Pos { x: x as u16, y: y as u16 });
            assert(out@ =~= before + formation_row(width, height, cols, r as int, (c + 1) as nat));
            c = c + 1;
            x = x + step;
        }
        proof {
            if c < cols {
                lemma_row_tail(width, height, cols, r as int, c as nat, cols as nat);
            }
        }
        r = r + 1;
        y = y + 2;
    }
    proof {
        if r < rows {
            lemma_rows_tail(width, height, cols, r as nat, rows as nat);
        }
    }
    out
}

} // verus!
