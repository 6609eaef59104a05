//! Wide (UTF-16) strings as Windows hands them out and takes them in:
//! process names in fixed, nul-terminated buffers, and nul-terminated paths.
use vstd::prelude::*;

verus! {

/// The code units before the first nul, or all of them when there is none.
pub open spec fn before_nul(units: Seq<u16>) -> Seq<u16>
    decreases units.len(),
{
    if units.len() == 0 || units[0] == 0 {
        Seq::empty()
    } else {
        seq![units[0]] + before_nul(units.drop_first())
    }
}

/// The part before the first nul is a prefix of the buffer, holds no nul,
/// and is followed by a nul unless it is the whole buffer.
pub proof fn lemma_before_nul_prefix(units: Seq<u16>)
    ensures
        before_nul(units).len() <= units.len(),
        before_nul(units) == units.subrange(0, before_nul(units).len() as int),
        forall|k: int| 0 <= k < before_nul(units).len() ==> before_nul(units)[k] != 0,
        before_nul(units).len() < units.len() ==> units[before_nul(units).len() as int] == 0,
    decreases units.len(),
{
    if units.len() > 0 && units[0] != 0 {
        let rest = units.drop_first();
        lemma_before_nul_prefix(rest);
        let p = before_nul(units);
        assert(p == seq![units[0]] + before_nul(rest));
        assert(p =~= units.subrange(0, p.len() as int));
        assert forall|k: int| 0 <= k < p.len() implies p[k] != 0 by {
            if k > 0 {
                assert(p[k] == before_nul(rest)[k - 1]);
            }
        }
        if p.len() < units.len() {
            assert(units[p.len() as int] == rest[before_nul(rest).len() as int]);
        }
    } else {
        assert(before_nul(units) =~= units.subrange(0, 0));
    }
}

/// UTF-16 decoding that replaces each unpaired surrogate with U+FFFD, as
/// `String::from_utf16_lossy` is documented to do.
pub open spec fn utf16_lossy(units: Seq<u16>) -> Seq<char>
    decreases units.len(),
{
    if units.len() == 0 {
        Seq::empty()
    } else if units[0] < 0xD800 || units[0] > 0xDFFF {
        seq![(units[0] as u32) as char] + utf16_lossy(units.drop_first())
    } else if units[0] <= 0xDBFF && units.len() >= 2 && 0xDC00 <= units[1] <= 0xDFFF {
        seq![((0x10000 + (units[0] - 0xD800) * 0x400 + (units[1] - 0xDC00)) as u32) as char] + utf16_lossy(
            units.subrange(2, units.len() as int),
        )
    } else {
        seq!['\u{FFFD}'] + utf16_lossy(units.drop_first())
    }
}

/// UTF-16 encoding: a character below U+10000 is one unit, any other is a
/// surrogate pair.
pub open spec fn utf16_encode(chars: Seq<char>) -> Seq<u16>
    decreases chars.len(),
{
    if chars.len() == 0 {
        Seq::empty()
    } else {
        let c = chars[0] as int;
        let head = if c < 0x10000 {
            seq![c as u16]
        } else {
            seq![(0xD800 + (c - 0x10000) / 0x400) as u16, (0xDC00 + (c - 0x10000) % 0x400) as u16]
        };
        head + utf16_encode(chars.drop_first())
    }
}

/// What `str::to_lowercase` returns for the given characters: the Unicode
/// lowercase mapping, character by character, with the special case of
/// final sigma. It depends on the characters alone.
pub uninterp spec fn unicode_lowercase(chars: Seq<char>) -> Seq<char>;

/// `char::from_u32` gives the character with the given code point, and
/// `None` exactly when the number is no Unicode scalar value (above
/// U+10FFFF, or a surrogate in U+D800..=U+DFFF), as std documents.
pub assume_specification[ char::from_u32 ](i: u32) -> (r: Option<char>)
    ensures
        r is Some <==> (i <= 0x10FFFF && !(0xD800 <= i <= 0xDFFF)),
        r matches Some(c) ==> c as u32 == i,
;

/// The character with code point `v`, known to be a scalar value.
fn scalar_char(v: u32) -> (c: char)
    requires
        v <= 0x10FFFF,
        !(0xD800 <= v <= 0xDFFF),
    ensures
        c == v as char,
{
    match char::from_u32(v) {
        Some(c) => {
            proof {
                vstd::utf8::char_u32_cast(c, v);
            }
            c
        },
        None => '\u{FFFD}',
    }
}

/// Decodes UTF-16, each unpaired surrogate becoming U+FFFD, as
/// `String::from_utf16_lossy` does.
pub fn from_utf16_lossy(units: &[u16]) -> (r: String)
    ensures
        r@ == utf16_lossy(units@),
{
    let n = units.len();
    let mut out = String::new();
    let mut i: usize = 0;
    assert(units@.subrange(0, n as int) =~= units@);
    while i < n
        invariant
            n == units@.len(),
            i <= n,
            out@ + utf16_lossy(units@.subrange(i as int, n as int)) == utf16_lossy(units@),
        decreases n - i,
    {
        let ghost rest = units@.subrange(i as int, n as int);
        let u = units[i];
        assert(rest[0] == u);
        if u < 0xD800 || u > 0xDFFF {
            out.push(scalar_char(u as u32));
            assert(rest.drop_first() =~= units@.subrange(i + 1, n as int));
            assert(out@ + utf16_lossy(units@.subrange(i + 1, n as int)) =~= utf16_lossy(units@));
            i += 1;
        } else if u <= 0xDBFF && i + 1 < n && 0xDC00 <= units[i + 1] && units[i + 1] <= 0xDFFF {
            let lo = units[i + 1];
            assert(rest[1] == lo);
            let v: u32 = 0x10000 + (u as u32 - 0xD800) * 0x400 + (lo as u32 - 0xDC00);
            out.push(scalar_char(v));
            assert(rest.subrange(2, rest.len() as int) =~= units@.subrange(i + 2, n as int));
            assert(out@ + utf16_lossy(units@.subrange(i + 2, n as int)) =~= utf16_lossy(units@));
            i += 2;
        } else {
            out.push('\u{FFFD}');
            assert(rest.drop_first() =~= units@.subrange(i + 1, n as int));
            assert(out@ + utf16_lossy(units@.subrange(i + 1, n as int)) =~= utf16_lossy(units@));
            i += 1;
        }
    }
    assert(units@.subrange(n as int, n as int) =~= Seq::<u16>::empty());
    out
}

/// Calls `str::to_lowercase`; the result is named, not stated.
#[verifier::external_body]
fn to_lowercase(s: &str) -> (r: String)
    ensures
        r@ == unicode_lowercase(s@),
{
    s.to_lowercase()
}

/// The UTF-16 units of `s`.
pub fn encode_utf16(s: &str) -> (r: Vec<u16>)
    ensures
        r@ == utf16_encode(s@),
{
    let n = s.unicode_len();
    let mut out: Vec<u16> = Vec::new();
    let mut i: usize = 0;
    assert(s@.subrange(0, n as int) =~= s@);
    while i < n
        invariant
            n == s@.len(),
            i <= n,
            out@ + utf16_encode(s@.subrange(i as int, n as int)) == utf16_encode(s@),
        decreases n - i,
    {
        let c = s.get_char(i);
        let cp: u32 = c as u32;
        let ghost rest = s@.subrange(i as int, n as int);
        assert(rest[0] == c);
        assert(rest.drop_first() =~= s@.subrange(i + 1, n as int));
        if cp < 0x10000 {
            out.push(cp as u16);
            assert(out@ + utf16_encode(s@.subrange(i + 1, n as int)) =~= utf16_encode(s@));
        } else {
            assert(cp <= 0x10FFFF) by {
                vstd::utf8::char_is_scalar(c);
            }
            let hi: u16 = (0xD800 + (cp - 0x10000) / 0x400) as u16;
            let lo: u16 = (0xDC00 + (cp - 0x10000) % 0x400) as u16;
            out.push(hi);
            out.push(lo);
            assert(out@ + utf16_encode(s@.subrange(i + 1, n as int)) =~= utf16_encode(s@));
        }
        i += 1;
    }
    assert(s@.subrange(n as int, n as int) =~= Seq::<char>::empty());
    out
}

/// The units of a fixed buffer up to the first nul.
pub fn units_before_nul(units: &[u16]) -> (r: Vec<u16>)
    ensures
        r@ == before_nul(units@),
{
    let mut r: Vec<u16> = Vec::new();
    let mut i: usize = 0;
    assert(units@.subrange(0, units@.len() as int) =~= units@);
    assert(r@ + before_nul(units@) =~= before_nul(units@));
    while i < units.len() && units[i] != 0
        invariant
            i <= units@.len(),
            forall|k: int| 0 <= k < i ==> units@[k] != 0,
            before_nul(units@) == r@ + before_nul(units@.subrange(i as int, units@.len() as int)),
        decreases units.len() - i,
    {
        let ghost rest = units@.subrange(i as int, units@.len() as int);
        assert(rest.drop_first() =~= units@.subrange(i + 1, units@.len() as int));
        r.push(units[i]);
        assert(before_nul(units@) == r@ + before_nul(units@.subrange(i + 1, units@.len() as int)));
        i += 1;
    }
    proof {
        let rest = units@.subrange(i as int, units@.len() as int);
        assert(before_nul(rest) =~= Seq::<u16>::empty());
        assert(before_nul(units@.subrange(0, units@.len() as int)) == before_nul(units@)) by {
            assert(units@.subrange(0, units@.len() as int) =~= units@);
        }
    }
    r
}

/// The text of a nul-terminated wide name, decoded.
pub fn decode_wide_name(units: &[u16]) -> (r: String)
    ensures
        r@ == utf16_lossy(before_nul(units@)),
{
    let prefix = units_before_nul(units);
    from_utf16_lossy(prefix.as_slice())
}

/// Whether the nul-terminated wide name, lowercased, is `lower_name`.
pub fn wide_name_is(units: &[u16], lower_name: &str) -> (r: bool)
    ensures
        r == (unicode_lowercase(utf16_lossy(before_nul(units@))) == lower_name@),
{
    let name = decode_wide_name(units);
    let lowered = to_lowercase(name.as_str());
    let expected = lower_name.to_owned();
    lowered == expected
}

/// Whether the nul-terminated wide name and `name` are the same once both
/// are lowercased.
pub fn process_name_matches(units: &[u16], name: &str) -> (r: bool)
    ensures
        r == (unicode_lowercase(utf16_lossy(before_nul(units@))) == unicode_lowercase(name@)),
{
    let wanted = to_lowercase(name);
    wide_name_is(units, wanted.as_str())
}

/// Whether the nul-terminated wide form of `path` has a byte size that a
/// `usize` can hold.
pub fn wide_path_fits(path: &str) -> (r: bool)
    ensures
        r == ((utf16_encode(path@).len() + 1) * 2 <= usize::MAX),
{
    let wide = encode_utf16(path);
    wide.len() < usize::MAX / 2
}

/// A path as a nul-terminated wide string, and its size in bytes.
pub fn wide_nul_path(path: &str) -> (r: (Vec<u16>, usize))
    requires
        (utf16_encode(path@).len() + 1) * 2 <= usize::MAX,
    ensures
        r.0@ == utf16_encode(path@).push(0u16),
        r.1 == r.0@.len() * 2,
{
    let mut wide = encode_utf16(path);
    wide.push(0);
    let size = wide.len() * 2;
    (wide, size)
}

} // verus!
