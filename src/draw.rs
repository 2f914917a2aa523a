use vstd::prelude::*;
use rand::seq::IteratorRandom;
use rand::Rng;

verus! {

/// The random source: the PCG32 generator of `rand_pcg`.
#[verifier::external_type_specification]
#[verifier::external_body]
pub struct ExPcg32(rand_pcg::Lcg64Xsh32);

/// Relies on `Rng::gen::<bool>` of rand: one fair coin flip.
#[verifier::external_body]
pub(crate) fn draw_bool(rng: &mut rand_pcg::Pcg32) -> bool {
    rng.gen::<bool>()
}

/// Relies on `Rng::gen::<u8>` of rand: a byte over its whole range.
#[verifier::external_body]
pub(crate) fn draw_u8(rng: &mut rand_pcg::Pcg32) -> u8 {
    rng.gen::<u8>()
}

/// Relies on `Rng::gen::<i8>` of rand: an `i8` over its whole range.
#[verifier::external_body]
pub(crate) fn draw_i8(rng: &mut rand_pcg::Pcg32) -> i8 {
    rng.gen::<i8>()
}

/// Relies on `Rng::gen::<i16>` of rand: an `i16` over its whole range.
#[verifier::external_body]
pub(crate) fn draw_i16(rng: &mut rand_pcg::Pcg32) -> i16 {
    rng.gen::<i16>()
}

/// Relies on `Rng::gen::<u16>` of rand: a `u16` over its whole range.
#[verifier::external_body]
pub(crate) fn draw_u16(rng: &mut rand_pcg::Pcg32) -> u16 {
    rng.gen::<u16>()
}

/// Relies on `Rng::gen::<i32>` of rand: an `i32` over its whole range.
#[verifier::external_body]
pub(crate) fn draw_i32(rng: &mut rand_pcg::Pcg32) -> i32 {
    rng.gen::<i32>()
}

/// Relies on `Rng::gen::<u32>` of rand: a `u32` over its whole range.
#[verifier::external_body]
pub(crate) fn draw_u32(rng: &mut rand_pcg::Pcg32) -> u32 {
    rng.gen::<u32>()
}

/// Relies on `Rng::gen::<u64>` of rand: a `u64` over its whole range.
#[verifier::external_body]
pub(crate) fn draw_u64(rng: &mut rand_pcg::Pcg32) -> u64 {
    rng.gen::<u64>()
}

/// Relies on `Rng::gen_range` of rand over an inclusive `u8` range: a value in
/// `lo..=hi` (the call panics on an empty range).
#[verifier::external_body]
pub(crate) fn draw_u8_in(rng: &mut rand_pcg::Pcg32, lo: u8, hi: u8) -> (r: u8)
    requires
        lo <= hi,
    ensures
        lo <= r <= hi,
{
    rng.gen_range(lo..=hi)
}

/// Relies on `Rng::gen_range` of rand over a half-open `i32` range: a value in
/// `lo..hi` (the call panics on an empty range).
#[verifier::external_body]
pub(crate) fn draw_i32_below(rng: &mut rand_pcg::Pcg32, lo: i32, hi: i32) -> (r: i32)
    requires
        lo < hi,
    ensures
        lo <= r < hi,
{
    rng.gen_range(lo..hi)
}

/// Relies on `Rng::gen_range` of rand over an inclusive `i32` range: a value in
/// `lo..=hi` (the call panics on an empty range).
#[verifier::external_body]
pub(crate) fn draw_i32_in(rng: &mut rand_pcg::Pcg32, lo: i32, hi: i32) -> (r: i32)
    requires
        lo <= hi,
    ensures
        lo <= r <= hi,
{
    rng.gen_range(lo..=hi)
}

/// Relies on `IteratorRandom::choose` of rand on the positions `0..n`: `None`
/// if and only if there are none, otherwise one of them.
#[verifier::external_body]
pub(crate) fn choose_index(rng: &mut rand_pcg::Pcg32, n: usize) -> (r: Option<usize>)
    ensures
        r is None <==> n == 0,
        r matches Some(i) ==> i < n,
{
    (0..n).choose(rng)
}

} // verus!
