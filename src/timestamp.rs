use vstd::prelude::*;
use chrono::TimeZone;
use crate::draw::{draw_i32, draw_i32_in};

verus! {

/// The widest UTC offset, in seconds, that a generated timestamp carries:
/// fourteen hours, the narrowest limit among common consumers (.NET's
/// `DateTimeOffset`), well inside the full day that RFC 3339 allows.
pub const MAX_OFFSET_SECONDS: i32 = 14 * 60 * 60;

/// The bound, exclusive, on the offsets that `chrono::FixedOffset` accepts.
pub const OFFSET_LIMIT_SECONDS: i32 = 86400;

/// What chrono's `to_rfc3339` renders for the instant `secs` seconds after the
/// Unix epoch, seen at a UTC offset of `offset` seconds.
pub uninterp spec fn rfc3339_text(secs: int, offset: int) -> Seq<char>;

/// Relies on chrono's `FixedOffset::east`, `TimeZone::timestamp` and
/// `DateTime::to_rfc3339`: the RFC 3339 rendering of an instant at an offset.
/// `east` panics outside the open day window that `requires` keeps; every
/// `i32` second count is a representable instant.
#[verifier::external_body]
#[allow(deprecated)]
fn render_rfc3339(secs: i32, offset: i32) -> (r: String)
    requires
        -OFFSET_LIMIT_SECONDS < offset < OFFSET_LIMIT_SECONDS,
    ensures
        r@ == rfc3339_text(secs as int, offset as int),
{
    chrono::FixedOffset::east(offset).timestamp(secs as i64, 0).to_rfc3339()
}

/// An RFC 3339 timestamp: the rendering of some instant with a 32-bit second
/// count at some offset that chrono accepts.
pub open spec fn is_timestamp_text(t: Seq<char>) -> bool {
    exists|secs: i32, offset: i32|
        -OFFSET_LIMIT_SECONDS < offset < OFFSET_LIMIT_SECONDS && t == #[trigger] rfc3339_text(
            secs as int,
            offset as int,
        )
}

/// A timestamp that the generator draws: the rendering of an instant with a
/// 32-bit second count at an offset of at most `MAX_OFFSET_SECONDS` either way.
pub open spec fn is_drawn_timestamp_text(t: Seq<char>) -> bool {
    exists|secs: i32, offset: i32|
        -MAX_OFFSET_SECONDS <= offset <= MAX_OFFSET_SECONDS && t == #[trigger] rfc3339_text(
            secs as int,
            offset as int,
        )
}

/// Draws a timestamp: first a UTC offset uniform in
/// `-MAX_OFFSET_SECONDS..=MAX_OFFSET_SECONDS`, then a 32-bit second count.
pub fn fuzz_timestamp(rng: &mut rand_pcg::Pcg32) -> (r: String)
    ensures
        is_timestamp_text(r@),
        is_drawn_timestamp_text(r@),
{
    let offset = draw_i32_in(rng, -MAX_OFFSET_SECONDS, MAX_OFFSET_SECONDS);
    let secs = draw_i32(rng);
    render_rfc3339(secs, offset)
}

} // verus!
