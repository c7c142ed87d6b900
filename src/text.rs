use vstd::prelude::*;
use vstd::utf8::encode_utf8;

verus! {

/// Whether byte offset `i` of the UTF-8 text `s` falls between two characters:
/// at either end, or on a byte that does not continue a multi-byte character.
pub open spec fn is_char_boundary(s: Seq<u8>, i: int) -> bool {
    i == 0 || i == s.len() || (0 < i < s.len() && !(0x80 <= s[i] && s[i] < 0xC0))
}

/// The largest character boundary of `s` that is at most `max` bytes in.
pub open spec fn boundary_floor(s: Seq<u8>, max: int) -> int
    decreases max,
{
    if max >= s.len() {
        s.len() as int
    } else if max <= 0 {
        0
    } else if is_char_boundary(s, max) {
        max
    } else {
        boundary_floor(s, max - 1)
    }
}

/// `s` cut to at most `max` bytes without splitting a character.
pub open spec fn clamped(s: Seq<u8>, max: int) -> Seq<u8> {
    s.subrange(0, boundary_floor(s, max))
}

/// `s` with every space turned into a dash.
pub open spec fn dashed(s: Seq<u8>) -> Seq<u8> {
    s.map_values(|b: u8| if b == 0x20 { 0x2Du8 } else { b })
}

pub proof fn lemma_boundary_floor_bounds(s: Seq<u8>, max: int)
    ensures
        0 <= boundary_floor(s, max) <= s.len(),
        max >= 0 ==> boundary_floor(s, max) <= max,
        is_char_boundary(s, boundary_floor(s, max)),
    decreases max,
{
    if max >= s.len() {
    } else if max <= 0 {
    } else if is_char_boundary(s, max) {
    } else {
        lemma_boundary_floor_bounds(s, max - 1);
    }
}

/// The UTF-8 bytes of a text.
pub fn utf8_of(s: &str) -> (r: Vec<u8>)
    ensures
        r@ == encode_utf8(s@),
{
    s.as_bytes_vec()
}

/// A copy of `s`.
pub fn copy_bytes(s: &Vec<u8>) -> (r: Vec<u8>)
    ensures
        r@ == s@,
{
    let mut r: Vec<u8> = Vec::new();
    push_all(&mut r, s);
    r
}

/// Appends the bytes of `src` to `dst`.
pub fn push_all(dst: &mut Vec<u8>, src: &Vec<u8>)
    ensures
        final(dst)@ == old(dst)@ + src@,
{
    let mut i: usize = 0;
    while i < src.len()
        invariant
            0 <= i <= src@.len(),
            dst@ == old(dst)@ + src@.subrange(0, i as int),
        decreases src@.len() - i,
    {
        dst.push(src[i]);
        i = i + 1;
        assert(dst@ =~= old(dst)@ + src@.subrange(0, i as int));
    }
    assert(src@.subrange(0, i as int) =~= src@);
}

/// `s` cut to at most `max` bytes, back to the nearest character boundary.
pub fn clamp_bytes(s: Vec<u8>, max: usize) -> (r: Vec<u8>)
    ensures
        r@ == clamped(s@, max as int),
        r@.len() <= max,
{
    proof {
        lemma_boundary_floor_bounds(s@, max as int);
    }
    let mut s = s;
    if s.len() > max {
        let mut cut: usize = max;
        while cut > 0 && 0x80 <= s[cut] && s[cut] < 0xC0
            invariant
                cut <= max < s@.len(),
                boundary_floor(s@, cut as int) == boundary_floor(s@, max as int),
            decreases cut,
        {
            cut = cut - 1;
        }
        s.truncate(cut);
    }
    s
}

/// `s` with every space turned into a dash.
pub fn dash_spaces(s: &Vec<u8>) -> (r: Vec<u8>)
    ensures
        r@ == dashed(s@),
{
    let mut r: Vec<u8> = Vec::new();
    let mut i: usize = 0;
    while i < s.len()
        invariant
            0 <= i <= s@.len(),
            r@ == dashed(s@.subrange(0, i as int)),
        decreases s@.len() - i,
    {
        let b = s[i];
        if b == 0x20 {
            r.push(0x2D);
        } else {
            r.push(b);
        }
        i = i + 1;
        assert(r@ =~= dashed(s@.subrange(0, i as int)));
    }
    assert(s@.subrange(0, i as int) =~= s@);
    r
}

} // verus!
