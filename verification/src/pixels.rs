//! Frame buffers and colors: packed rows, scratch buffers, blending and
//! fades. Weights and opacities are millionths.
use crate::config::Color;
use crate::fullscreen::clamped;
use crate::geometry::{unit, ONE};
use vstd::arithmetic::div_mod::{lemma_fundamental_div_mod, lemma_fundamental_div_mod_converse};
use vstd::prelude::*;

verus! {

/// The byte at `k` of a destination after `rows` packed rows of `row_bytes`
/// were copied to its rows of `stride` bytes.
pub open spec fn blitted(dst: Seq<u8>, stride: int, src: Seq<u8>, row_bytes: int, rows: int, k: int) -> u8 {
    if stride > 0 && k / stride < rows && k % stride < row_bytes {
        src[(k / stride) * row_bytes + k % stride]
    } else {
        dst[k]
    }
}

/// Copies packed rows to the rows of a destination with a wider stride. The
/// bytes past each packed row keep their value.
pub fn blit_packed_rows(dst: &mut Vec<u8>, dst_stride: usize, src: &[u8], row_bytes: usize, rows: usize)
    requires
        row_bytes <= dst_stride,
        rows > 0 && row_bytes > 0 ==> (rows - 1) * dst_stride + row_bytes <= old(dst)@.len(),
        rows * row_bytes <= src@.len(),
    ensures
        final(dst)@.len() == old(dst)@.len(),
        forall|k: int|
            0 <= k < final(dst)@.len() ==> #[trigger] final(dst)@[k] == blitted(
                old(dst)@,
                dst_stride as int,
                src@,
                row_bytes as int,
                rows as int,
                k,
            ),
{
    if row_bytes == 0 {
        return ;
    }
    let mut row: usize = 0;
    let (dst_len, src_len) = (dst.len(), src.len());
    let ghost before = dst@;
    while row < rows
        invariant
            dst@.len() == before.len(),
            dst_len == before.len(),
            src_len == src@.len(),
            0 < row_bytes <= dst_stride,
            rows > 0 ==> (rows - 1) * dst_stride + row_bytes <= before.len(),
            rows * row_bytes <= src@.len(),
            row <= rows,
            forall|k: int|
                0 <= k < dst@.len() ==> #[trigger] dst@[k] == blitted(
                    before,
                    dst_stride as int,
                    src@,
                    row_bytes as int,
                    row as int,
                    k,
                ),
        decreases rows - row,
    {
        proof {
            assert(row * dst_stride <= (rows - 1) * dst_stride) by (nonlinear_arith)
                requires
                    0 <= row <= rows - 1,
                    0 <= dst_stride,
            ;
            assert((row + 1) * row_bytes <= rows * row_bytes) by (nonlinear_arith)
                requires
                    row + 1 <= rows,
                    0 <= row_bytes,
            ;
            assert((row + 1) * row_bytes == row * row_bytes + row_bytes) by (nonlinear_arith);
            assert(0 <= row * dst_stride && 0 <= row * row_bytes) by (nonlinear_arith)
                requires
                    0 <= row,
                    0 <= dst_stride,
                    0 <= row_bytes,
            ;
        }
        let mut col: usize = 0;
        while col < row_bytes
            invariant
                dst@.len() == before.len(),
                dst_len == before.len(),
                src_len == src@.len(),
                0 < row_bytes <= dst_stride,
                row < rows,
                0 <= row * dst_stride,
                0 <= row * row_bytes,
                row * dst_stride + row_bytes <= before.len(),
                row * row_bytes + row_bytes <= src@.len(),
                col <= row_bytes,
                forall|k: int|
                    0 <= k < dst@.len() ==> #[trigger] dst@[k] == (if k / (dst_stride as int) == row && k % (
                    dst_stride as int) < col {
                        src@[row * row_bytes + k % (dst_stride as int)]
                    } else {
                        blitted(before, dst_stride as int, src@, row_bytes as int, row as int, k)
                    }),
            decreases row_bytes - col,
        {
            let at: usize = row * dst_stride + col;
            let from: usize = row * row_bytes + col;
            proof {
                lemma_fundamental_div_mod_converse(at as int, dst_stride as int, row as int, col as int);
            }
            let ghost prev = dst@;
            dst.set(at, src[from]);
            proof {
                assert forall|k: int| 0 <= k < dst@.len() implies #[trigger] dst@[k] == (if k / (dst_stride as int)
                    == row && k % (dst_stride as int) < col + 1 {
                    src@[row * row_bytes + k % (dst_stride as int)]
                } else {
                    blitted(before, dst_stride as int, src@, row_bytes as int, row as int, k)
                }) by {
                    if k != at {
                        assert(dst@[k] == prev[k]);
                        lemma_fundamental_div_mod(k, dst_stride as int);
                        lemma_fundamental_div_mod(at as int, dst_stride as int);
                    }
                }
            }
            col = col + 1;
        }
        row = row + 1;
    }
}

/// Where the strides agree the copy is contiguous: each copied byte lands at
/// its own index.
pub proof fn law_equal_strides_copy_in_place(dst: Seq<u8>, stride: int, src: Seq<u8>, rows: int, k: int)
    requires
        stride > 0,
        0 <= k < rows * stride,
    ensures
        blitted(dst, stride, src, stride, rows, k) == src[k],
{
    lemma_fundamental_div_mod(k, stride);
    assert(k / stride < rows) by (nonlinear_arith)
        requires
            stride > 0,
            0 <= k < rows * stride,
    ;
    assert((k / stride) * stride + k % stride == k) by (nonlinear_arith)
        requires
            k == stride * (k / stride) + k % stride,
    ;
}

/// Makes the scratch buffer `needed` zero bytes.
pub fn clear_frame_scratch(scratch: &mut Vec<u8>, needed: usize)
    ensures
        final(scratch)@ == Seq::new(needed as nat, |i: int| 0u8),
{
    scratch.clear();
    scratch.resize(needed, 0);
    assert(scratch@ =~= Seq::new(needed as nat, |i: int| 0u8));
}

/// `Vec::capacity`: what the buffer has allocated, at least what it holds.
#[verifier::external_body]
fn capacity_of(scratch: &Vec<u8>) -> (r: usize)
    ensures
        r >= scratch@.len(),
{
    scratch.capacity()
}

/// `Vec::shrink_to`: gives allocated memory back and keeps the contents. How
/// much memory goes back is the allocator's affair and not stated.
#[verifier::external_body]
fn shrink_capacity(scratch: &mut Vec<u8>, needed: usize)
    ensures
        final(scratch)@ == old(scratch)@,
{
    scratch.shrink_to(needed);
}

/// Whether a buffer is worth shrinking: the need has dropped to half of what
/// it has allocated, so an ordinary animation never reallocates.
pub fn shrink_is_due(capacity: usize, needed: usize) -> (r: bool)
    ensures
        r <==> 2 * needed <= capacity,
{
    needed <= capacity / 2
}

/// Gives an oversized scratch buffer's memory back once the need has dropped
/// to half of it. The contents stay; how much is allocated afterwards is the
/// allocator's affair.
pub fn shrink_frame_scratch(scratch: &mut Vec<u8>, needed: usize)
    ensures
        final(scratch)@ == old(scratch)@,
{
    let capacity: usize = capacity_of(scratch);
    if shrink_is_due(capacity, needed) {
        shrink_capacity(scratch, needed);
    }
}

/// The mix of two bytes: `a` at weight nothing, `b` at full weight, rounded
/// to the nearest byte in between.
pub open spec fn mixed(a: u8, b: u8, weight: i64) -> int {
    (a * (ONE - unit(weight)) + b * unit(weight) + 500_000) / 1_000_000
}

/// The mix of two bytes.
pub fn mix_byte(a: u8, b: u8, weight: i64) -> (r: u8)
    ensures
        r == mixed(a, b, weight),
{
    let u: i64 = if weight < 0 {
        0
    } else if weight > ONE {
        ONE
    } else {
        weight
    };
    let rest: i64 = ONE - u;
    assert(0 <= a * rest <= 255 * rest && 0 <= b * u <= 255 * u) by (nonlinear_arith)
        requires
            0 <= a <= 255,
            0 <= b <= 255,
            0 <= rest,
            0 <= u,
    ;
    assert(255 * rest + 255 * u == 255_000_000);
    ((a as i64 * rest + b as i64 * u + 500_000) / 1_000_000) as u8
}

/// A mix at the ends of its range is one of its two bytes, and never leaves
/// the interval between them.
pub proof fn law_mix_meets_its_ends(a: u8, b: u8, weight: i64)
    ensures
        weight <= 0 ==> mixed(a, b, weight) == a,
        weight >= ONE ==> mixed(a, b, weight) == b,
        a <= b ==> a <= mixed(a, b, weight) <= b,
        b <= a ==> b <= mixed(a, b, weight) <= a,
{
    let u = unit(weight);
    assert(a * (1_000_000 - u) + b * u == 1_000_000 * a + (b - a) * u) by (nonlinear_arith);
    assert((b - a) * 0 == 0) by (nonlinear_arith);
    assert((b - a) * 1_000_000 == 1_000_000 * b - 1_000_000 * a) by (nonlinear_arith);
    if a <= b {
        assert(0 <= (b - a) * u <= 1_000_000 * (b - a)) by (nonlinear_arith)
            requires
                0 <= u <= 1_000_000,
                a <= b,
        ;
    } else {
        assert(-1_000_000 * (a - b) <= (b - a) * u <= 0) by (nonlinear_arith)
            requires
                0 <= u <= 1_000_000,
                b <= a,
        ;
    }
}

/// Dissolves the old frame into the new one: every byte, alpha included, goes
/// from the old frame at weight nothing to the new one at full weight.
pub fn blend_frames(frame: &mut Vec<u8>, from: &Vec<u8>, weight: i64)
    ensures
        final(frame)@.len() == old(frame)@.len(),
        forall|i: int|
            0 <= i < old(frame)@.len() ==> #[trigger] final(frame)@[i] == (if i < from@.len() {
                mixed(from@[i], old(frame)@[i], weight) as u8
            } else {
                old(frame)@[i]
            }),
{
    let mut i: usize = 0;
    let ghost before = frame@;
    while i < frame.len() && i < from.len()
        invariant
            frame@.len() == before.len(),
            i <= frame@.len(),
            i <= from@.len(),
            forall|k: int| i <= k < frame@.len() ==> #[trigger] frame@[k] == before[k],
            forall|k: int| 0 <= k < i ==> #[trigger] frame@[k] == mixed(from@[k], before[k], weight) as u8,
        decreases frame@.len() - i,
    {
        let b: u8 = mix_byte(from[i], frame[i], weight);
        frame.set(i, b);
        i = i + 1;
    }
}

/// The pill fill tinted toward an accent; the fill's alpha stays.
pub fn tinted_fill(base: Color, accent: Color, weight: i64) -> (r: Color)
    ensures
        r.r == mixed(base.r, accent.r, weight),
        r.g == mixed(base.g, accent.g, weight),
        r.b == mixed(base.b, accent.b, weight),
        r.a == base.a,
{
    Color {
        r: mix_byte(base.r, accent.r, weight),
        g: mix_byte(base.g, accent.g, weight),
        b: mix_byte(base.b, accent.b, weight),
        a: base.a,
    }
}

/// A color with its alpha scaled; the other channels stay.
pub fn dim_color(color: Color, factor: i64) -> (r: Color)
    ensures
        r.r == color.r,
        r.g == color.g,
        r.b == color.b,
        r.a == mixed(0, color.a, factor),
{
    Color { r: color.r, g: color.g, b: color.b, a: mix_byte(0, color.a, factor) }
}

/// The opacity at a distance into a fade; full where there is no fade.
pub open spec fn ramp(distance: int, fade: i64) -> int {
    if fade <= 0 {
        ONE as int
    } else {
        clamped(distance, 0, fade as int) * ONE / (fade as int)
    }
}

/// The opacity of a marquee column.
pub open spec fn edge_fade(x: i64, left: i64, right: i64, fade_left: i64, fade_right: i64) -> int {
    let l = ramp(x - left, fade_left);
    let r = ramp(right - x, fade_right);
    if right <= left {
        ONE as int
    } else if l < r {
        l
    } else {
        r
    }
}

fn ramp_at(distance: i128, fade: i64) -> (r: i64)
    ensures
        r == ramp(distance as int, fade),
        0 <= r <= ONE,
{
    if fade <= 0 {
        return ONE;
    }
    let d: i128 = if distance < 0 {
        0
    } else if distance > fade as i128 {
        fade as i128
    } else {
        distance
    };
    assert(0 <= d * 1_000_000 / (fade as int) <= 1_000_000) by (nonlinear_arith)
        requires
            0 <= d <= fade,
            fade > 0,
    ;
    (d * 1_000_000 / (fade as i128)) as i64
}

/// The opacity of a marquee column at `x`: none at each visible edge, full in
/// the interior, linear across each edge's fade. A fade of no width leaves
/// its edge solid, and a band without width is not faded at all.
pub fn edge_fade_factor(x: i64, left: i64, right: i64, fade_left: i64, fade_right: i64) -> (r: i64)
    ensures
        r == edge_fade(x, left, right, fade_left, fade_right),
        0 <= r <= ONE,
{
    if right <= left {
        return ONE;
    }
    let l: i64 = ramp_at(x as i128 - left as i128, fade_left);
    let r: i64 = ramp_at(right as i128 - x as i128, fade_right);
    if l < r {
        l
    } else {
        r
    }
}

/// A mix is even: it is the byte nearest to the weighted mean of both.
pub proof fn law_mix_is_even(a: u8, b: u8, weight: i64)
    requires
        0 <= weight <= ONE,
    ensures
        ({
            let mean = a * (ONE - weight) + b * weight;
            1_000_000 * mixed(a, b, weight) - 500_000 <= mean < 1_000_000 * mixed(a, b, weight) + 500_000
        }),
{
}

/// An edge fade rises evenly over its width from nothing at the edge; without
/// a width there is none.
pub proof fn law_edge_fade_rises_evenly(distance: int, fade: i64)
    ensures
        fade <= 0 ==> ramp(distance, fade) == ONE,
        fade > 0 && distance <= 0 ==> ramp(distance, fade) == 0,
        fade > 0 && distance >= fade ==> ramp(distance, fade) == ONE,
        0 < distance < fade ==> ramp(distance, fade) * fade <= distance * ONE < (ramp(distance, fade) + 1) * fade,
{
    if fade > 0 {
        let d = clamped(distance, 0, fade as int);
        let (n, f) = (d * 1_000_000, fade as int);
        let q = n / f;
        assert(q * f <= n < (q + 1) * f) by (nonlinear_arith)
            requires
                q == n / f,
                f > 0,
        ;
        if distance <= 0 {
            assert(q == 0) by (nonlinear_arith)
                requires
                    q * f <= 0,
                    0 < (q + 1) * f,
                    f > 0,
            ;
        }
        if distance >= fade {
            assert(q == 1_000_000) by (nonlinear_arith)
                requires
                    q * f <= f * 1_000_000,
                    f * 1_000_000 < (q + 1) * f,
                    f > 0,
            ;
        }
    }
}

/// A column is as opaque as the nearer of its two edges lets it be.
pub proof fn law_nearer_edge_decides(x: i64, left: i64, right: i64, fade_left: i64, fade_right: i64)
    requires
        left < right,
    ensures
        edge_fade(x, left, right, fade_left, fade_right) <= ramp(x - left, fade_left),
        edge_fade(x, left, right, fade_left, fade_right) <= ramp(right - x, fade_right),
        edge_fade(x, left, right, fade_left, fade_right) == ramp(x - left, fade_left) || edge_fade(
            x,
            left,
            right,
            fade_left,
            fade_right,
        ) == ramp(right - x, fade_right),
{
}

/// A copied row lands at the start of its destination row, in its order, and
/// what lies behind it and below the last row stays.
pub proof fn law_rows_are_copied_to_their_own_rows(
    dst: Seq<u8>,
    stride: int,
    src: Seq<u8>,
    row_bytes: int,
    rows: int,
    row: int,
    column: int,
)
    requires
        0 < stride,
        0 <= column < stride,
        0 <= row,
    ensures
        row < rows && column < row_bytes ==> blitted(dst, stride, src, row_bytes, rows, row * stride + column)
            == src[row * row_bytes + column],
        row >= rows || column >= row_bytes ==> blitted(dst, stride, src, row_bytes, rows, row * stride + column)
            == dst[row * stride + column],
{
    let k = row * stride + column;
    lemma_fundamental_div_mod_converse(k, stride, row, column);
}

} // verus!
