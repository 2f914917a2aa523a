use vstd::prelude::*;
use crate::draw::draw_u8_in;

verus! {

/// The most characters of a generated string, elements of a generated array,
/// members of a generated `values` object, and extra members that one
/// `properties` object is offered. The bound is inclusive: lengths are drawn
/// uniformly from `0..=MAX_SEQ_LENGTH`.
pub const MAX_SEQ_LENGTH: u8 = 8;

/// The smallest and largest printable ASCII code.
pub const PRINTABLE_FIRST: u8 = 32;

pub const PRINTABLE_LAST: u8 = 126;

/// What `str::to_lowercase` returns for a string.
pub uninterp spec fn lower_of(s: Seq<char>) -> Seq<char>;

/// Relies on `str::to_lowercase` of std: the result depends on the characters
/// alone.
#[verifier::external_body]
pub(crate) fn lowercase(s: &str) -> (r: String)
    ensures
        r@ == lower_of(s@),
{
    s.to_lowercase()
}

/// Relies on `String::push` of std: appends one character.
#[verifier::external_body]
pub(crate) fn push_char(s: &mut String, c: char)
    ensures
        final(s)@ == old(s)@.push(c),
{
    s.push(c)
}

/// A string that the generic string rule can give: at most `MAX_SEQ_LENGTH`
/// characters, each printable ASCII.
pub open spec fn short_text(t: Seq<char>) -> bool {
    &&& t.len() <= MAX_SEQ_LENGTH
    &&& forall|i: int|
        0 <= i < t.len() ==> PRINTABLE_FIRST as u32 <= (#[trigger] t[i]) as u32 <= PRINTABLE_LAST as u32
}

/// Whether two strings hold the same characters.
pub fn str_eq(a: &str, b: &str) -> (r: bool)
    ensures
        r == (a@ == b@),
{
    let n = a.unicode_len();
    if n != b.unicode_len() {
        return false;
    }
    let mut i: usize = 0;
    while i < n
        invariant
            n == a@.len() == b@.len(),
            i <= n,
            forall|j: int| 0 <= j < i ==> a@[j] == b@[j],
        decreases n - i,
    {
        if a.get_char(i) != b.get_char(i) {
            return false;
        }
        i += 1;
    }
    assert(a@ =~= b@);
    true
}

/// Draws a string: a length in `0..=MAX_SEQ_LENGTH`, then that many
/// characters, each uniform over printable ASCII, in draw order.
pub fn fuzz_string(rng: &mut rand_pcg::Pcg32) -> (r: String)
    ensures
        short_text(r@),
{
    let n = draw_u8_in(rng, 0, MAX_SEQ_LENGTH);
    let mut s = String::new();
    let mut i: u8 = 0;
    while i < n
        invariant
            i <= n <= MAX_SEQ_LENGTH,
            s@.len() == i,
            forall|j: int|
                0 <= j < s@.len() ==> PRINTABLE_FIRST as u32 <= (#[trigger] s@[j]) as u32
                    <= PRINTABLE_LAST as u32,
        decreases n - i,
    {
        let b = draw_u8_in(rng, PRINTABLE_FIRST, PRINTABLE_LAST);
        push_char(&mut s, b as char);
        i += 1;
    }
    s
}

} // verus!
