//! Buffers of RGBA8 texels, stored row by row with four bytes per texel.

use vstd::prelude::*;

verus! {

/// Doubles `p` until it reaches `n`.
pub open spec fn double_up_to(p: nat, n: nat) -> nat
    decreases (if p < n { n - p } else { 0 }),
{
    if p == 0 || p >= n {
        p
    } else {
        double_up_to(2 * p, n)
    }
}

/// The smallest power of two that is at least `n`; 1 for 0.
pub open spec fn next_power_of_two(n: nat) -> nat {
    double_up_to(1, n)
}

/// Whether `p` is a power of two.
pub open spec fn is_power_of_two(p: nat) -> bool
    decreases p,
{
    p == 1 || (p >= 2 && p % 2 == 0 && is_power_of_two(p / 2))
}

proof fn lemma_double_up_to(p: nat, n: nat)
    requires
        is_power_of_two(p),
        p == 1 || p < 2 * n,
    ensures
        is_power_of_two(double_up_to(p, n)),
        double_up_to(p, n) >= n,
        double_up_to(p, n) >= p,
        double_up_to(p, n) == 1 || double_up_to(p, n) < 2 * n,
    decreases (if p < n { n - p } else { 0 }),
{
    if p >= n {
    } else {
        assert(is_power_of_two(2 * p)) by {
            assert((2 * p) / 2 == p);
        }
        lemma_double_up_to(2 * p, n);
    }
}

/// `next_power_of_two(n)` is a power of two, is at least `n`, and is less than
/// twice `n` unless `n` is 0: it is the smallest such power.
pub proof fn lemma_next_power_of_two(n: nat)
    ensures
        is_power_of_two(next_power_of_two(n)),
        next_power_of_two(n) >= n,
        next_power_of_two(n) >= 1,
        n >= 1 ==> next_power_of_two(n) < 2 * n,
        n <= 65535 ==> next_power_of_two(n) <= 65536,
{
    lemma_double_up_to(1, n);
    if n >= 1 && n <= 65535 {
        assert(is_power_of_two(65536)) by {
            reveal_with_fuel(is_power_of_two, 18);
        }
        lemma_power_of_two_below(next_power_of_two(n), 65536);
    }
}

proof fn lemma_power_of_two_below(p: nat, q: nat)
    requires
        is_power_of_two(p),
        is_power_of_two(q),
        p < 2 * q,
    ensures
        p <= q,
    decreases p,
{
    if p > 1 {
        lemma_power_of_two_below(p / 2, q / 2);
    }
}

/// The position of byte `j` of row `i` in a buffer whose rows hold `width` texels.
pub open spec fn texel_byte(width: nat, i: nat, j: nat) -> int {
    (i * width * 4 + j) as int
}

proof fn lemma_texel_byte_in_bounds(width: nat, height: nat, i: nat, j: nat)
    requires
        i < height,
        j <= width * 4,
    ensures
        i * width * 4 + j <= height * width * 4,
        i * width * 4 + width * 4 <= height * width * 4,
        i * width * 4 == i * (width * 4),
        height * width * 4 == height * (width * 4),
{
    assert(i * width * 4 + width * 4 <= height * width * 4) by (nonlinear_arith)
        requires
            i < height,
    ;
    assert(i * width * 4 == i * (width * 4)) by (nonlinear_arith);
    assert(height * width * 4 == height * (width * 4)) by (nonlinear_arith);
}

/// The buffer that `scale_rgba_up_to_power_of_2` builds: `w2` by `h2` texels,
/// the `width` by `height` texels of `rgba` in the corner nearest to the
/// origin, and zero everywhere else.
pub open spec fn padded(width: nat, height: nat, w2: nat, h2: nat, rgba: Seq<u8>) -> Seq<u8> {
    Seq::new(
        h2 * w2 * 4,
        |k: int|
            {
                let i = k / (w2 * 4) as int;
                let j = k % (w2 * 4) as int;
                if i < height && j < width * 4 {
                    rgba[texel_byte(width, i as nat, j as nat)]
                } else {
                    0u8
                }
            },
    )
}

fn power_of_two_at_least(n: usize) -> (p: usize)
    requires
        n <= 65535,
    ensures
        p == next_power_of_two(n as nat),
        1 <= p <= 65536,
{
    let mut p: usize = 1;
    proof {
        lemma_next_power_of_two(n as nat);
    }
    while p < n
        invariant
            1 <= p <= 65536,
            n <= 65535,
            double_up_to(p as nat, n as nat) == next_power_of_two(n as nat),
            next_power_of_two(n as nat) <= 65536,
            double_up_to(p as nat, n as nat) >= p,
        decreases 131072 - p,
    {
        proof {
            lemma_double_monotone(2 * p as nat, n as nat);
        }
        p = p * 2;
    }
    p
}

proof fn lemma_double_monotone(p: nat, n: nat)
    ensures
        double_up_to(p, n) >= p,
    decreases (if p < n { n - p } else { 0 }),
{
    if p == 0 || p >= n {
    } else {
        lemma_double_monotone(2 * p, n);
    }
}

/// Copies a buffer of `width` by `height` texels into one whose sides are the
/// next powers of two. The texels keep their coordinates; the rest is zero.
/// The new sides are returned in 16 bits, so a side of 65536 comes back as 0.
pub fn scale_rgba_up_to_power_of_2(width: u16, height: u16, rgba: &[u8]) -> (r: (u16, u16, Vec<u8>))
    requires
        rgba@.len() >= width as nat * height as nat * 4,
        next_power_of_two(width as nat) * next_power_of_two(height as nat) * 4 <= usize::MAX,
    ensures
        r.0 as nat == next_power_of_two(width as nat) % 65536,
        r.1 as nat == next_power_of_two(height as nat) % 65536,
        r.2@ == padded(
            width as nat,
            height as nat,
            next_power_of_two(width as nat),
            next_power_of_two(height as nat),
            rgba@,
        ),
{
    let width: usize = width as usize;
    let height: usize = height as usize;
    let len: usize = rgba.len();
    let w2: usize = power_of_two_at_least(width);
    let h2: usize = power_of_two_at_least(height);
    let ghost goal = padded(width as nat, height as nat, w2 as nat, h2 as nat, rgba@);
    proof {
        lemma_next_power_of_two(width as nat);
        lemma_next_power_of_two(height as nat);
        assert(w2 * 4 <= w2 * h2 * 4) by (nonlinear_arith)
            requires
                h2 >= 1,
        ;
        assert(h2 * w2 * 4 == w2 * h2 * 4) by (nonlinear_arith);
    }
    let row: usize = w2 * 4;
    let mut v: Vec<u8> = Vec::new();
    let mut i: usize = 0;
    while i < h2
        invariant
            i <= h2,
            1 <= w2 <= 65536,
            1 <= h2 <= 65536,
            width <= 65535,
            height <= 65535,
            width <= w2,
            height <= h2,
            row == w2 * 4,
            h2 * w2 * 4 <= usize::MAX,
            rgba@.len() >= width as nat * height as nat * 4,
            rgba@.len() == len,
            goal == padded(width as nat, height as nat, w2 as nat, h2 as nat, rgba@),
            v@.len() == i * row,
            forall|k: int| 0 <= k < v@.len() ==> v@[k] == goal[k],
        decreases h2 - i,
    {
        proof {
            lemma_texel_byte_in_bounds(w2 as nat, h2 as nat, i as nat, 0);
            if i < height {
                lemma_texel_byte_in_bounds(width as nat, height as nat, i as nat, 0);
                assert(height as nat * width as nat * 4 == width as nat * height as nat * 4)
                    by (nonlinear_arith);
            }
        }
        let src_start: usize = if i < height {
            i * (width * 4)
        } else {
            0
        };
        let mut j: usize = 0;
        while j < row
            invariant
                i < h2,
                j <= row,
                1 <= w2 <= 65536,
                width <= w2,
                height <= h2,
                row == w2 * 4,
                h2 * w2 * 4 <= usize::MAX,
                i * row + row <= h2 * w2 * 4,
                rgba@.len() >= width as nat * height as nat * 4,
                rgba@.len() == len,
                width <= 65535,
                i < height ==> src_start == i * width * 4 && src_start + width * 4 <= rgba@.len(),
                goal == padded(width as nat, height as nat, w2 as nat, h2 as nat, rgba@),
                v@.len() == i * row + j,
                forall|k: int| 0 <= k < v@.len() ==> v@[k] == goal[k],
            decreases row - j,
        {
            let ghost k = (i * row + j) as int;
            proof {
                assert(k / (row as int) == i && k % (row as int) == j) by (nonlinear_arith)
                    requires
                        k == i * row + j,
                        0 <= j < row,
                        0 <= i,
                ;
                assert(k < h2 * w2 * 4);
                assert(goal.len() == h2 * w2 * 4);
            }
            let b: u8 = if i < height && j < width * 4 {
                rgba[src_start + j]
            } else {
                0
            };
            assert(b == goal[k]);
            v.push(b);
            j += 1;
        }
        i += 1;
        assert(i * row == (i - 1) * row + row) by (nonlinear_arith);
    }
    proof {
        assert(v@.len() == h2 * w2 * 4) by (nonlinear_arith)
            requires
                v@.len() == i * row,
                i == h2,
                row == w2 * 4,
        ;
        assert(v@ =~= goal);
    }
    let w16: u16 = if w2 == 65536 {
        0
    } else {
        w2 as u16
    };
    let h16: u16 = if h2 == 65536 {
        0
    } else {
        h2 as u16
    };
    (w16, h16, v)
}

/// The buffer with its rows in the opposite order: row `i` of the result is
/// row `height - 1 - i` of `rgba`. The bytes within a row keep their order.
pub open spec fn flipped(width: nat, height: nat, rgba: Seq<u8>) -> Seq<u8> {
    Seq::new(
        rgba.len(),
        |k: int|
            if width > 0 && k < height * (width * 4) {
                rgba[(height - 1 - k / (width * 4) as int) * (width * 4) + k % (width * 4) as int]
            } else {
                rgba[k]
            },
    )
}

proof fn lemma_row_split(row: int, i: int, j: int)
    requires
        0 <= j < row,
        0 <= i,
    ensures
        (i * row + j) / row == i,
        (i * row + j) % row == j,
{
    assert((i * row + j) / row == i && (i * row + j) % row == j) by (nonlinear_arith)
        requires
            0 <= j < row,
            0 <= i,
    ;
}

proof fn lemma_row_bounds(row: int, height: int, k: int)
    requires
        row > 0,
        0 <= k < height * row,
    ensures
        0 <= k / row < height,
        0 <= k % row < row,
        k == (k / row) * row + k % row,
        0 <= (height - 1 - k / row) * row + k % row < height * row,
{
    assert(0 <= k / row < height && 0 <= k % row < row && k == (k / row) * row + k % row)
        by (nonlinear_arith)
        requires
            row > 0,
            0 <= k < height * row,
    ;
    let i = k / row;
    assert(0 <= (height - 1 - i) * row + k % row < height * row) by (nonlinear_arith)
        requires
            0 <= i < height,
            0 <= k % row < row,
    ;
}

/// Turning a buffer upside down twice gives the buffer back: the correction
/// for the row order of a render texture must be applied exactly once.
pub proof fn lemma_flip_twice(width: nat, height: nat, rgba: Seq<u8>)
    requires
        rgba.len() == height * (width * 4),
    ensures
        flipped(width, height, flipped(width, height, rgba)) == rgba,
{
    let once = flipped(width, height, rgba);
    let twice = flipped(width, height, once);
    assert forall|k: int| 0 <= k < rgba.len() implies twice[k] == rgba[k] by {
        if width > 0 {
            let row = (width * 4) as int;
            lemma_row_bounds(row, height as int, k);
            let i = k / row;
            let j = k % row;
            let k2 = (height - 1 - i) * row + j;
            lemma_row_split(row, height - 1 - i, j);
            lemma_row_bounds(row, height as int, k2);
        }
    }
    assert(twice =~= rgba);
}

/// Row `i` of the flipped buffer is row `height - 1 - i` of `rgba`.
pub proof fn lemma_flipped_rows(width: nat, height: nat, rgba: Seq<u8>, i: nat, j: nat)
    requires
        rgba.len() == height * (width * 4),
        i < height,
        j < width * 4,
    ensures
        0 <= i * (width * 4) + j < rgba.len(),
        0 <= (height - 1 - i) * (width * 4) + j < rgba.len(),
        flipped(width, height, rgba)[(i * (width * 4) + j) as int] == rgba[(height - 1 - i) * (
        width * 4) + j],
{
    let row = (width * 4) as int;
    lemma_row_split(row, i as int, j as int);
    assert(0 <= i * row + j < height * row) by (nonlinear_arith)
        requires
            0 <= i < height,
            0 <= j < row,
    ;
    lemma_row_bounds(row, height as int, i * row + j);
}

/// Reverses the order of the rows of a buffer of `width` by `height` texels,
/// in place.
pub fn flip_pixel_data(rgba: &mut Vec<u8>, width: usize, height: usize)
    requires
        old(rgba)@.len() == height as nat * (width as nat * 4),
    ensures
        final(rgba)@ == flipped(width as nat, height as nat, old(rgba)@),
{
    let len: usize = rgba.len();
    if width == 0 || height == 0 {
        assert(len == 0) by (nonlinear_arith)
            requires
                len == height as nat * (width as nat * 4),
                width == 0 || height == 0,
        ;
        assert(rgba@ =~= flipped(width as nat, height as nat, rgba@));
        return ;
    }
    assert(width as nat * 4 <= len) by (nonlinear_arith)
        requires
            len == height as nat * (width as nat * 4),
            height >= 1,
    ;
    let row: usize = width * 4;
    let ghost goal = flipped(width as nat, height as nat, rgba@);
    let mut out: Vec<u8> = Vec::new();
    let mut i: usize = 0;
    while i < height
        invariant
            i <= height,
            row == width * 4,
            row > 0,
            len == rgba@.len(),
            len == height as nat * (width as nat * 4),
            *rgba == *old(rgba),
            goal == flipped(width as nat, height as nat, rgba@),
            out@.len() == i * row,
            forall|k: int| 0 <= k < out@.len() ==> out@[k] == goal[k],
        decreases height - i,
    {
        proof {
            assert(0 <= (height - 1 - i) * row && (height - 1 - i) * row + row <= height * row
                && i * row + row <= height * row) by (nonlinear_arith)
                requires
                    0 <= i < height,
                    row > 0,
            ;
        }
        let src_start: usize = (height - 1 - i) * row;
        let mut j: usize = 0;
        while j < row
            invariant
                i < height,
                j <= row,
                row == width * 4,
                row > 0,
                len == rgba@.len(),
                len == height as nat * (width as nat * 4),
                src_start == (height - 1 - i) * row,
                src_start + row <= len,
                i * row + row <= len,
                goal == flipped(width as nat, height as nat, rgba@),
                out@.len() == i * row + j,
                forall|k: int| 0 <= k < out@.len() ==> out@[k] == goal[k],
            decreases row - j,
        {
            proof {
                lemma_flipped_rows(width as nat, height as nat, rgba@, i as nat, j as nat);
            }
            out.push(rgba[src_start + j]);
            j += 1;
        }
        i += 1;
        assert(i * row == (i - 1) * row + row) by (nonlinear_arith);
    }
    assert(out@ =~= goal);
    *rgba = out;
}

/// `count` texels of one colour.
pub open spec fn solid_pixels(count: nat, r: u8, g: u8, b: u8, a: u8) -> Seq<u8> {
    Seq::new(
        count * 4,
        |k: int|
            if k % 4 == 0 {
                r
            } else if k % 4 == 1 {
                g
            } else if k % 4 == 2 {
                b
            } else {
                a
            },
    )
}

/// A buffer of `count` texels, each with the given channels.
pub fn solid_buffer(count: usize, r: u8, g: u8, b: u8, a: u8) -> (buffer: Vec<u8>)
    ensures
        buffer@ == solid_pixels(count as nat, r, g, b, a),
{
    let mut buffer: Vec<u8> = Vec::new();
    let mut i: usize = 0;
    while i < count
        invariant
            i <= count,
            buffer@ == solid_pixels(i as nat, r, g, b, a),
        decreases count - i,
    {
        buffer.push(r);
        buffer.push(g);
        buffer.push(b);
        buffer.push(a);
        i += 1;
        assert(buffer@ =~= solid_pixels(i as nat, r, g, b, a));
    }
    buffer
}

} // verus!
