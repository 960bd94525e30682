//! Where the finger rests on the left trackpad, as a cell of the trackpad
//! keyboard, and the text that publishes it.
use vstd::prelude::*;
use crate::layout::{VKBD_COLS, VKBD_ROWS};

verus! {

/// The position reported while no finger touches the pad.
pub const NO_CELL: (usize, usize) = (usize::MAX, usize::MAX);

pub open spec fn clamp(v: int, lo: int, hi: int) -> int {
    if v < lo {
        lo
    } else if v > hi {
        hi
    } else {
        v
    }
}

pub open spec fn abs_int(v: int) -> int {
    if v < 0 {
        -v
    } else {
        v
    }
}

/// The column under pad abscissa `x` on a pad spanning `-m ..= m`.
pub open spec fn col_of(m: int, x: int) -> int {
    clamp((x + m) * (VKBD_COLS as int) / (2 * m + 1), 0, VKBD_COLS as int - 1)
}

/// The row under pad ordinate `y`; the top of the pad (`y == m`) is row 0.
pub open spec fn row_of(m: int, y: int) -> int {
    clamp(abs_int(y - m) * (VKBD_ROWS as int) / (2 * m + 1), 0, VKBD_ROWS as int - 1)
}

/// The cell `(col, row)` under the pad reading `(x, y)`, or `NO_CELL` when
/// both axes read zero.
pub open spec fn cell_of(m: int, x: int, y: int) -> (usize, usize) {
    if x == 0 && y == 0 {
        NO_CELL
    } else {
        (col_of(m, x) as usize, row_of(m, y) as usize)
    }
}

/// The cell `(col, row)` under the pad reading `(x, y)` on a pad whose axes
/// reach `hat_max`, or `NO_CELL` when both axes read zero.
pub fn vkbd_cell_at(hat_max: i32, x: i32, y: i32) -> (r: (usize, usize))
    requires
        hat_max >= 0,
    ensures
        r == cell_of(hat_max as int, x as int, y as int),
        r != NO_CELL ==> r.0 < VKBD_COLS && r.1 < VKBD_ROWS,
{
    if x == 0 && y == 0 {
        return NO_CELL;
    }
    let m = hat_max as i64;
    let den: i64 = 2 * m + 1;
    let sx: i64 = x as i64 + m;
    let col: i64 = if sx <= 0 {
        0
    } else {
        let q = sx * 2 / den;
        if q > VKBD_COLS as i64 - 1 {
            VKBD_COLS as i64 - 1
        } else {
            q
        }
    };
    proof {
        if sx <= 0 {
            let (a, b) = (sx as int, den as int);
            assert(a * 2 / b <= 0) by (nonlinear_arith)
                requires
                    a <= 0,
                    b >= 1,
            ;
        } else {
            let (a, b) = (sx as int, den as int);
            assert(a * 2 / b >= 0) by (nonlinear_arith)
                requires
                    a > 0,
                    b >= 1,
            ;
        }
    }
    let dy: i64 = if (y as i64) < m {
        m - y as i64
    } else {
        y as i64 - m
    };
    let q = dy * 4 / den;
    proof {
        let (a, b) = (dy as int, den as int);
        assert(a * 4 / b >= 0) by (nonlinear_arith)
            requires
                a >= 0,
                b >= 1,
        ;
    }
    let row: i64 = if q > VKBD_ROWS as i64 - 1 {
        VKBD_ROWS as i64 - 1
    } else {
        q
    };
    let r = (col as usize, row as usize);
    assert(r != NO_CELL);
    r
}

/// Decimal digits of `n` in ASCII, most significant first.
pub open spec fn decimal(n: nat) -> Seq<u8>
    decreases n,
{
    if n < 10 {
        seq![(48 + n) as u8]
    } else {
        decimal(n / 10).push((48 + n % 10) as u8)
    }
}

/// The published text for cell `(col, row)`: `"{col} {row}"`.
pub open spec fn cell_text(cell: (usize, usize)) -> Seq<u8> {
    decimal(cell.0 as nat) + seq![32u8] + decimal(cell.1 as nat)
}

/// Appends the decimal digits of `n` to `out`.
pub fn push_decimal(out: &mut Vec<u8>, n: usize)
    ensures
        final(out)@ == old(out)@ + decimal(n as nat),
    decreases n,
{
    if n >= 10 {
        push_decimal(out, n / 10);
    }
    let d: u8 = (n % 10) as u8;
    out.push(48 + d);
    assert(final(out)@ =~= old(out)@ + decimal(n as nat));
}

/// The text `"{col} {row}"` that publishes cell `(col, row)`, with no
/// trailing newline.
pub fn cell_bytes(cell: (usize, usize)) -> (b: Vec<u8>)
    ensures
        b@ == cell_text(cell),
{
    let mut b: Vec<u8> = Vec::new();
    push_decimal(&mut b, cell.0);
    b.push(32);
    push_decimal(&mut b, cell.1);
    assert(b@ =~= cell_text(cell));
    b
}

/// Every cell of the trackpad keyboard is reached by some pad reading within
/// the pad's extent, and that reading is not the at-rest reading `(0, 0)`.
/// A pad with at least two units on each side of its centre suffices.
pub proof fn lemma_every_cell_reachable(m: int, row: int, col: int)
    requires
        m >= 2,
        0 <= row < VKBD_ROWS,
        0 <= col < VKBD_COLS,
    ensures
        exists|x: int, y: int|
            -m <= x <= m && -m <= y <= m && !(x == 0 && y == 0) && col_of(m, x) == col
                && row_of(m, y) == row,
{
    let den = 2 * m + 1;
    let x = if col == 0 {
        -m
    } else {
        1
    };
    assert(col_of(m, x) == col) by {
        if col == 0 {
            assert(0int * 2 / den == 0);
        } else {
            assert((m + 1) * 2 / den == 1) by (nonlinear_arith)
                requires
                    den == 2 * m + 1,
                    m >= 2,
            ;
        }
    }
    let d = (row * den + 3) / 4;
    let y = m - d;
    assert(0 <= d <= 2 * m && d * 4 / den == row) by (nonlinear_arith)
        requires
            den == 2 * m + 1,
            m >= 2,
            0 <= row < 4,
            d == (row * den + 3) / 4,
    ;
    assert(abs_int(y - m) == d);
    assert(row_of(m, y) == row);
    assert(-m <= x <= m && -m <= y <= m && !(x == 0 && y == 0));
}

/// Every pad reading other than `(0, 0)` selects a cell inside the grid.
pub proof fn lemma_cell_in_grid(m: int, x: int, y: int)
    requires
        m >= 0,
        !(x == 0 && y == 0),
    ensures
        0 <= col_of(m, x) < VKBD_COLS,
        0 <= row_of(m, y) < VKBD_ROWS,
        cell_of(m, x, y) != NO_CELL,
{
}

} // verus!
