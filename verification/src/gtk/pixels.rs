//! Glyphs in one color: every pixel takes the color, and the alpha stays as the shape.
use vstd::prelude::*;

verus! {

/// A pixel's color components set, where the pixel with its alpha lies within the data.
pub open spec fn pixel(p: Seq<u8>, i: int, r: u8, g: u8, b: u8) -> Seq<u8> {
    if 0 <= i && i + 3 < p.len() {
        p.update(i, r).update(i + 1, g).update(i + 2, b)
    } else {
        p
    }
}

/// The first `n` pixels of the row that starts at `row`, `step` bytes apart.
pub open spec fn row_colored(p: Seq<u8>, row: int, step: int, r: u8, g: u8, b: u8, n: int) -> Seq<u8>
    decreases n,
{
    if n <= 0 {
        p
    } else {
        pixel(row_colored(p, row, step, r, g, b, n - 1), row + (n - 1) * step, r, g, b)
    }
}

/// The first `n` rows, `stride` bytes apart, `width` pixels each.
pub open spec fn rows_colored(
    p: Seq<u8>,
    width: int,
    stride: int,
    step: int,
    r: u8,
    g: u8,
    b: u8,
    n: int,
) -> Seq<u8>
    decreases n,
{
    if n <= 0 {
        p
    } else {
        row_colored(
            rows_colored(p, width, stride, step, r, g, b, n - 1),
            (n - 1) * stride,
            step,
            r,
            g,
            b,
            width,
        )
    }
}

/// A picture in one color. One without an alpha is left as it is.
pub open spec fn recolored(
    p: Seq<u8>,
    width: int,
    height: int,
    stride: int,
    step: int,
    r: u8,
    g: u8,
    b: u8,
) -> Seq<u8> {
    if step < 4 {
        p
    } else {
        rows_colored(p, width, stride, step, r, g, b, height)
    }
}

proof fn row_spares(p: Seq<u8>, row: int, step: int, r: u8, g: u8, b: u8, n: int, j: int)
    requires
        0 <= row,
        4 <= step,
        0 <= j < p.len(),
        forall|x: int|
            0 <= x < n ==> !(#[trigger] (row + x * step) <= j <= row + x * step + 2),
    ensures
        row_colored(p, row, step, r, g, b, n).len() == p.len(),
        row_colored(p, row, step, r, g, b, n)[j] == p[j],
    decreases n,
{
    if n > 0 {
        row_spares(p, row, step, r, g, b, n - 1, j);
        let x = n - 1;
        let i = row + x * step;
        assert(!(i <= j <= i + 2));
    }
}

proof fn rows_spare(
    p: Seq<u8>,
    width: int,
    stride: int,
    step: int,
    r: u8,
    g: u8,
    b: u8,
    n: int,
    j: int,
)
    requires
        0 <= stride,
        4 <= step,
        0 <= j < p.len(),
        forall|x: int, y: int|
            0 <= x < width && 0 <= y < n ==> !(#[trigger] (y * stride + x * step) <= j <= y * stride
                + x * step + 2),
    ensures
        rows_colored(p, width, stride, step, r, g, b, n).len() == p.len(),
        rows_colored(p, width, stride, step, r, g, b, n)[j] == p[j],
    decreases n,
{
    if n > 0 {
        rows_spare(p, width, stride, step, r, g, b, n - 1, j);
        let y = n - 1;
        let row = y * stride;
        assert(0 <= row) by (nonlinear_arith)
            requires
                0 <= y,
                0 <= stride,
                row == y * stride,
        ;
        assert forall|x: int| 0 <= x < width implies !(#[trigger] (row + x * step) <= j <= row + x
            * step + 2) by {
            assert(!((y * stride + x * step) <= j <= y * stride + x * step + 2));
        }
        row_spares(
            rows_colored(p, width, stride, step, r, g, b, n - 1),
            row,
            step,
            r,
            g,
            b,
            width,
            j,
        );
    }
}

/// Recoloring a picture leaves the alpha of every pixel as it was.
pub proof fn the_alpha_stays(
    p: Seq<u8>,
    width: int,
    height: int,
    stride: int,
    step: int,
    r: u8,
    g: u8,
    b: u8,
    x: int,
    y: int,
)
    requires
        0 <= x < width,
        0 <= y < height,
        4 <= step,
        width * step <= stride,
        y * stride + x * step + 3 < p.len(),
        0 <= y * stride + x * step,
    ensures
        recolored(p, width, height, stride, step, r, g, b)[y * stride + x * step + 3] == p[y
            * stride + x * step + 3],
{
    let j = y * stride + x * step + 3;
    assert(0 <= stride) by (nonlinear_arith)
        requires
            0 <= x < width,
            4 <= step,
            width * step <= stride,
    ;
    assert forall|x2: int, y2: int| 0 <= x2 < width && 0 <= y2 < height implies !(#[trigger] (y2
        * stride + x2 * step) <= j <= y2 * stride + x2 * step + 2) by {
        let i2 = y2 * stride + x2 * step;
        if y2 < y {
            assert(i2 + 2 < y * stride) by (nonlinear_arith)
                requires
                    0 <= x2 < width,
                    y2 + 1 <= y,
                    4 <= step,
                    0 <= stride,
                    width * step <= stride,
                    i2 == y2 * stride + x2 * step,
            ;
            assert(0 <= x * step) by (nonlinear_arith)
                requires
                    0 <= x,
                    4 <= step,
            ;
        } else if y2 > y {
            assert(j < i2) by (nonlinear_arith)
                requires
                    0 <= x < width,
                    0 <= x2,
                    y + 1 <= y2,
                    4 <= step,
                    0 <= stride,
                    width * step <= stride,
                    j == y * stride + x * step + 3,
                    i2 == y2 * stride + x2 * step,
            ;
        } else if x2 <= x {
            assert(i2 + 2 < j) by (nonlinear_arith)
                requires
                    x2 <= x,
                    4 <= step,
                    j == y * stride + x * step + 3,
                    i2 == y * stride + x2 * step,
            ;
        } else {
            assert(j < i2) by (nonlinear_arith)
                requires
                    x + 1 <= x2,
                    4 <= step,
                    j == y * stride + x * step + 3,
                    i2 == y * stride + x2 * step,
            ;
        }
    }
    rows_spare(p, width, stride, step, r, g, b, height, j);
}

proof fn row_keeps_len(p: Seq<u8>, row: int, step: int, r: u8, g: u8, b: u8, n: int)
    ensures
        row_colored(p, row, step, r, g, b, n).len() == p.len(),
    decreases n,
{
    if n > 0 {
        row_keeps_len(p, row, step, r, g, b, n - 1);
    }
}

proof fn row_colors(p: Seq<u8>, row: int, step: int, r: u8, g: u8, b: u8, n: int, x: int)
    requires
        0 <= row,
        4 <= step,
        0 <= x < n,
        row + x * step + 3 < p.len(),
    ensures
        ({
            let q = row_colored(p, row, step, r, g, b, n);
            let i = row + x * step;
            q.len() == p.len() && 0 <= i && q[i] == r && q[i + 1] == g && q[i + 2] == b
        }),
    decreases n,
{
    row_keeps_len(p, row, step, r, g, b, n - 1);
    assert(0 <= x * step) by (nonlinear_arith)
        requires
            0 <= x,
            4 <= step,
    ;
    if x < n - 1 {
        row_colors(p, row, step, r, g, b, n - 1, x);
        assert(x * step + 4 <= (n - 1) * step) by (nonlinear_arith)
            requires
                x + 1 <= n - 1,
                4 <= step,
        ;
    }
}

proof fn rows_keep_len(
    p: Seq<u8>,
    width: int,
    stride: int,
    step: int,
    r: u8,
    g: u8,
    b: u8,
    n: int,
)
    ensures
        rows_colored(p, width, stride, step, r, g, b, n).len() == p.len(),
    decreases n,
{
    if n > 0 {
        rows_keep_len(p, width, stride, step, r, g, b, n - 1);
        row_keeps_len(
            rows_colored(p, width, stride, step, r, g, b, n - 1),
            (n - 1) * stride,
            step,
            r,
            g,
            b,
            width,
        );
    }
}

proof fn rows_color(
    p: Seq<u8>,
    width: int,
    stride: int,
    step: int,
    r: u8,
    g: u8,
    b: u8,
    n: int,
    x: int,
    y: int,
)
    requires
        0 <= x < width,
        0 <= y < n,
        4 <= step,
        width * step <= stride,
        y * stride + x * step + 3 < p.len(),
    ensures
        ({
            let q = rows_colored(p, width, stride, step, r, g, b, n);
            let i = y * stride + x * step;
            q.len() == p.len() && 0 <= i && q[i] == r && q[i + 1] == g && q[i + 2] == b
        }),
    decreases n,
{
    let before = rows_colored(p, width, stride, step, r, g, b, n - 1);
    let row = (n - 1) * stride;
    rows_keep_len(p, width, stride, step, r, g, b, n - 1);
    rows_keep_len(p, width, stride, step, r, g, b, n);
    assert(0 <= stride) by (nonlinear_arith)
        requires
            0 <= x < width,
            4 <= step,
            width * step <= stride,
    ;
    assert(0 <= row) by (nonlinear_arith)
        requires
            0 <= n - 1,
            0 <= stride,
            row == (n - 1) * stride,
    ;
    if y == n - 1 {
        row_colors(before, row, step, r, g, b, width, x);
    } else {
        rows_color(p, width, stride, step, r, g, b, n - 1, x, y);
        let i = y * stride + x * step;
        assert(i + 2 < row) by (nonlinear_arith)
            requires
                0 <= x < width,
                y + 1 <= n - 1,
                4 <= step,
                0 <= stride,
                width * step <= stride,
                i == y * stride + x * step,
                row == (n - 1) * stride,
        ;
        row_spares_before(before, row, step, r, g, b, width, i);
        row_spares_before(before, row, step, r, g, b, width, i + 1);
        row_spares_before(before, row, step, r, g, b, width, i + 2);
    }
}

proof fn row_spares_before(p: Seq<u8>, row: int, step: int, r: u8, g: u8, b: u8, n: int, j: int)
    requires
        4 <= step,
        0 <= j < row,
        j < p.len(),
    ensures
        row_colored(p, row, step, r, g, b, n)[j] == p[j],
{
    assert forall|x: int| 0 <= x < n implies !(#[trigger] (row + x * step) <= j <= row + x * step
        + 2) by {
        assert(0 <= x * step) by (nonlinear_arith)
            requires
                0 <= x,
                4 <= step,
        ;
    }
    row_spares(p, row, step, r, g, b, n, j);
}

/// Recoloring a picture with an alpha gives every pixel that lies whole within the data the
/// color.
pub proof fn every_pixel_takes_the_color(
    p: Seq<u8>,
    width: int,
    height: int,
    stride: int,
    step: int,
    r: u8,
    g: u8,
    b: u8,
    x: int,
    y: int,
)
    requires
        0 <= x < width,
        0 <= y < height,
        4 <= step,
        width * step <= stride,
        y * stride + x * step + 3 < p.len(),
    ensures
        ({
            let q = recolored(p, width, height, stride, step, r, g, b);
            let i = y * stride + x * step;
            q.len() == p.len() && 0 <= i && q[i] == r && q[i + 1] == g && q[i + 2] == b
        }),
{
    rows_color(p, width, stride, step, r, g, b, height, x, y);
}

/// Recoloring a picture leaves the bytes between the end of a row's pixels and the next row as
/// they were.
pub proof fn the_padding_stays(
    p: Seq<u8>,
    width: int,
    height: int,
    stride: int,
    step: int,
    r: u8,
    g: u8,
    b: u8,
    y: int,
    j: int,
)
    requires
        0 <= width,
        0 <= y < height,
        width * step <= stride,
        y * stride + width * step <= j < (y + 1) * stride,
        0 <= j < p.len(),
    ensures
        recolored(p, width, height, stride, step, r, g, b)[j] == p[j],
{
    if step >= 4 {
        assert(0 <= stride) by (nonlinear_arith)
            requires
                0 <= width,
                4 <= step,
                width * step <= stride,
        ;
        assert forall|x2: int, y2: int| 0 <= x2 < width && 0 <= y2 < height implies !(#[trigger] (y2
            * stride + x2 * step) <= j <= y2 * stride + x2 * step + 2) by {
            let i2 = y2 * stride + x2 * step;
            if y2 <= y {
                assert(i2 + 2 < y * stride + width * step) by (nonlinear_arith)
                    requires
                        0 <= x2 < width,
                        y2 <= y,
                        4 <= step,
                        0 <= stride,
                        i2 == y2 * stride + x2 * step,
                ;
            } else {
                assert((y + 1) * stride <= i2) by (nonlinear_arith)
                    requires
                        0 <= x2,
                        y + 1 <= y2,
                        4 <= step,
                        0 <= stride,
                        i2 == y2 * stride + x2 * step,
                ;
            }
        }
        rows_spare(p, width, stride, step, r, g, b, height, j);
    }
}

/// Recolors a picture in place. `stride` is the distance of its rows and `step` that of its
/// pixels, in bytes.
pub fn recolor_pixbuf(
    pixels: &mut Vec<u8>,
    width: usize,
    height: usize,
    stride: usize,
    step: usize,
    r: u8,
    g: u8,
    b: u8,
)
    requires
        height * stride + width * step + 3 <= usize::MAX,
    ensures
        final(pixels)@ == recolored(
            old(pixels)@,
            width as int,
            height as int,
            stride as int,
            step as int,
            r,
            g,
            b,
        ),
{
    if step < 4 {
        return;
    }
    let ghost start = pixels@;
    let mut y: usize = 0;
    while y < height
        invariant
            y <= height,
            4 <= step,
            height * stride + width * step + 3 <= usize::MAX,
            pixels@ == rows_colored(
                start,
                width as int,
                stride as int,
                step as int,
                r,
                g,
                b,
                y as int,
            ),
        decreases height - y,
    {
        assert(y * stride <= height * stride) by (nonlinear_arith)
            requires
                y < height,
                0 <= stride,
        ;
        let row: usize = y * stride;
        let ghost before = pixels@;
        let mut x: usize = 0;
        while x < width
            invariant
                x <= width,
                4 <= step,
                row + width * step + 3 <= usize::MAX,
                pixels@ == row_colored(before, row as int, step as int, r, g, b, x as int),
            decreases width - x,
        {
            assert(x * step <= width * step) by (nonlinear_arith)
                requires
                    x < width,
                    0 <= step,
            ;
            let i: usize = row + x * step;
            if i + 3 < pixels.len() {
                pixels.set(i, r);
                pixels.set(i + 1, g);
                pixels.set(i + 2, b);
            }
            x = x + 1;
        }
        y = y + 1;
    }
}

/// The color a glyph is drawn in: the one it is given, else the theme's own, near white on a dark
/// theme and near black on a light one.
pub fn glyph_color(tint: Option<(u8, u8, u8)>, dark: bool) -> (c: (u8, u8, u8))
    ensures
        c == (match tint {
            Some(t) => t,
            None => if dark {
                (0xffu8, 0xffu8, 0xffu8)
            } else {
                (0x1au8, 0x1au8, 0x1au8)
            },
        }),
{
    match tint {
        Some(t) => t,
        None => if dark {
            (0xff, 0xff, 0xff)
        } else {
            (0x1a, 0x1a, 0x1a)
        },
    }
}

} // verus!
