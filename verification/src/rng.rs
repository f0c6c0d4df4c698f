//! The engine's randomness source: one trusted draw of a bounded integer,
//! and verified helpers that shape it into spawn velocities and colours.

use vstd::prelude::*;

use crate::geom::Color;
use crate::geom::SCALE;
use rand::Rng;

verus! {

/// Relies on `rand::Rng::gen_range` on `rand::thread_rng()`: a uniform draw
/// from `0..n`, which is nonempty since `n >= 1` (an empty range would make
/// `gen_range` panic), so the result lies below `n`.
#[verifier::external_body]
pub(crate) fn random_below(n: u64) -> (r: u64)
    requires
        1 <= n,
    ensures
        r < n,
{
    rand::thread_rng().gen_range(0..n)
}

/// A draw from the symmetric half-open range `[-s, s)`, used for spawn
/// velocities; a width of zero yields exactly zero.
pub fn random_symmetric(s: i64) -> (r: i64)
    requires
        0 <= s,
        2 * s <= i64::MAX,
    ensures
        -s <= r <= s,
        s == 0 ==> r == 0,
        0 < s ==> r < s,
{
    if s == 0 {
        0
    } else {
        let raw: u64 = random_below((2 * s) as u64);
        (raw as i64) - s
    }
}

/// A freshly drawn particle colour: each channel uniform below full
/// intensity, fully opaque.
pub fn random_color() -> (c: Color)
    ensures
        crate::geom::valid_color(c),
{
    let red: u64 = random_below(SCALE as u64);
    let green: u64 = random_below(SCALE as u64);
    let blue: u64 = random_below(SCALE as u64);
    Color { red: red as i64, green: green as i64, blue: blue as i64, alpha: SCALE }
}

} // verus!
