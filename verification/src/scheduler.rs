//! The frame scheduler's partitioning: the screen's columns are cut
//! into one contiguous half-open band per worker. Every band is
//! `width / threads` columns wide except the last, which absorbs the
//! remainder, so the bands tile `[0, width)` exactly — proved below.
//! Spawning the workers and joining them is the embedding's business;
//! each worker renders the columns of its own band.

use vstd::prelude::*;
use vstd::arithmetic::div_mod::lemma_fundamental_div_mod;
use vstd::arithmetic::mul::lemma_mul_inequality;
use crate::color::Color;
use crate::raymarching::{generate_ray, spec_generate_ray};
use crate::scene::{Scene, spec_march};

verus! {

/// How many workers a frame is cut into by default.
pub const THREAD_COUNT: u16 = 8;

/// `x` pushed into `[a, b]`: `a` where `x < a`, `b` where `x > b`.
pub open spec fn spec_clamp(x: u16, a: u16, b: u16) -> u16 {
    if x < a {
        a
    } else if x > b {
        b
    } else {
        x
    }
}

/// Keeps a column index inside `[a, b]`.
pub fn clamp(x: u16, a: u16, b: u16) -> (r: u16)
    ensures
        r == spec_clamp(x, a, b),
{
    if x < a {
        return a;
    }
    if x > b {
        return b;
    }
    x
}

/// The first column of worker `tx`'s band.
pub open spec fn spec_band_start(tx: int, width: int, threads: int) -> int {
    tx * (width / threads)
}

/// One past the last column of worker `tx`'s band: the next band's
/// start, except that the last band runs to the full width.
pub open spec fn spec_band_end(tx: int, width: int, threads: int) -> int {
    if tx == threads - 1 {
        width
    } else {
        (tx + 1) * (width / threads)
    }
}

/// `threads * (width / threads) <= width`: the bands' common width
/// times their count never exceeds the screen.
proof fn lemma_div_mul_le(width: int, threads: int)
    requires
        threads >= 1,
        width >= 0,
    ensures
        threads * (width / threads) <= width,
        width / threads >= 0,
{
    lemma_fundamental_div_mod(width, threads);
}

/// The half-open column range worker `tx` renders.
pub fn band_range(tx: u16, width: u16, threads: u16) -> (r: (u16, u16))
    requires
        1 <= threads,
        tx < threads,
    ensures
        r.0 == spec_band_start(tx as int, width as int, threads as int),
        r.1 == spec_band_end(tx as int, width as int, threads as int),
        r.0 <= r.1 <= width,
{
    let bw: u16 = width / threads;
    proof {
        lemma_div_mul_le(width as int, threads as int);
        lemma_mul_inequality(tx as int + 1, threads as int, bw as int);
        lemma_mul_inequality(tx as int, tx as int + 1, bw as int);
        assert((tx as int + 1) * (bw as int) == tx as int * bw as int + bw as int)
            by (nonlinear_arith);
    }
    let start: u16 = tx * bw;
    let end: u16 = if tx == threads - 1 {
        width
    } else {
        tx * bw + bw
    };
    (start, end)
}

/// The cell one worker computes for one screen coordinate of its band:
/// the cell's ray under the given yaw, marched to completion through
/// the scene. A worker is this, column by column and row by row, plus
/// the write into the frame buffer.
pub fn render_cell(scene: &Scene, camera_yaw: u32, term_size: (u16, u16), px: u16, py: u16) -> (res:
    (char, Color))
    requires
        px <= term_size.0,
        py <= term_size.1,
        scene.distance_fields@.len() <= 0x7FFF_FFFF,
    ensures
        res == spec_march(
            scene.distance_fields@,
            spec_generate_ray(camera_yaw, term_size, px, py),
        ),
{
    let ray = generate_ray(camera_yaw, term_size, px, py);
    scene.march(ray)
}

/// Worker `tx`'s band contains column `c`.
pub open spec fn spec_in_band(tx: int, c: int, width: int, threads: int) -> bool {
    spec_band_start(tx, width, threads) <= c < spec_band_end(tx, width, threads)
}

/// Every column of the screen lies in some worker's band: the bands
/// leave no gap in `[0, width)`.
pub proof fn lemma_bands_cover(width: u16, threads: u16, c: int)
    requires
        threads >= 1,
        0 <= c < width,
    ensures
        exists|tx: int|
            0 <= tx < threads && #[trigger] spec_in_band(tx, c, width as int, threads as int),
{
    let w = width as int;
    let t = threads as int;
    let bw = w / t;
    lemma_div_mul_le(w, t);
    if bw == 0 {
        assert((t - 1) * bw == 0) by (nonlinear_arith)
            requires
                bw == 0,
        ;
        assert(spec_in_band(t - 1, c, w, t));
    } else {
        lemma_fundamental_div_mod(c, bw);
        let q = c / bw;
        assert(q * bw <= c < q * bw + bw);
        assert(q >= 0) by (nonlinear_arith)
            requires
                c < q * bw + bw,
                0 <= c,
                bw > 0,
        ;
        if q >= t - 1 {
            lemma_mul_inequality(t - 1, q, bw);
            assert(spec_in_band(t - 1, c, w, t));
        } else {
            assert((q + 1) * bw == q * bw + bw) by (nonlinear_arith);
            assert(spec_in_band(q, c, w, t));
        }
    }
}

/// No column lies in two bands: two workers whose bands share the
/// column `c` are the same worker.
pub proof fn lemma_bands_disjoint(width: u16, threads: u16, tx1: int, tx2: int, c: int)
    requires
        threads >= 1,
        0 <= tx1 < threads,
        0 <= tx2 < threads,
        spec_in_band(tx1, c, width as int, threads as int),
        spec_in_band(tx2, c, width as int, threads as int),
    ensures
        tx1 == tx2,
{
    let w = width as int;
    let t = threads as int;
    if tx1 < tx2 {
        lemma_band_order(w, t, tx1, tx2);
    } else if tx2 < tx1 {
        lemma_band_order(w, t, tx2, tx1);
    }
}

/// An earlier band ends no later than a later band starts.
proof fn lemma_band_order(w: int, t: int, lo: int, hi: int)
    requires
        t >= 1,
        0 <= lo < hi < t,
        w >= 0,
    ensures
        spec_band_end(lo, w, t) <= spec_band_start(hi, w, t),
{
    let bw = w / t;
    lemma_div_mul_le(w, t);
    lemma_mul_inequality(lo + 1, hi, bw);
}

} // verus!
