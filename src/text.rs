//! UTF-16 text, as the foreign runtime stores strings.
use vstd::prelude::*;

verus! {

/// The UTF-16 code units of one character.
pub open spec fn utf16_of_char(c: char) -> Seq<u16> {
    let v = c as u32;
    if v < 0x1_0000 {
        seq![v as u16]
    } else {
        seq![(0xD800 + (v - 0x1_0000) / 0x400) as u16, (0xDC00 + (v - 0x1_0000) % 0x400) as u16]
    }
}

/// The UTF-16 encoding of a text.
pub open spec fn utf16_of(s: Seq<char>) -> Seq<u16>
    decreases s.len(),
{
    if s.len() == 0 {
        Seq::empty()
    } else {
        utf16_of_char(s[0]) + utf16_of(s.drop_first())
    }
}

/// The code units are the encoding of some text.
pub open spec fn is_utf16(units: Seq<u16>) -> bool {
    exists|s: Seq<char>| utf16_of(s) == units
}

/// The text that valid code units encode, or `Encoding` for invalid ones.
pub open spec fn spec_decode_utf16(units: Seq<u16>) -> Result<Seq<char>, crate::memory::ReadError> {
    if is_utf16(units) {
        Ok(choose|s: Seq<char>| utf16_of(s) == units)
    } else {
        Err(crate::memory::ReadError::Encoding)
    }
}

/// Relies on `String::from_utf16`: it fails exactly on code units that are
/// not valid UTF-16, and otherwise gives the text they encode.
#[verifier::external_body]
pub(crate) fn decode_utf16(units: &[u16]) -> (r: Option<String>)
    ensures
        r matches Some(s) ==> utf16_of(s@) == units@,
        r is None ==> !is_utf16(units@),
{
    String::from_utf16(units).ok()
}

/// Relies on `str::encode_utf16`: the UTF-16 code units of the text, in order.
#[verifier::external_body]
pub(crate) fn encode_utf16(s: &str) -> (r: Vec<u16>)
    ensures
        r@ == utf16_of(s@),
{
    s.encode_utf16().collect()
}

proof fn lemma_char_units(c: char)
    ensures
        utf16_of_char(c).len() == 1 ==> !(0xD800 <= utf16_of_char(c)[0] <= 0xDFFF),
        utf16_of_char(c).len() == 2 ==> 0xD800 <= utf16_of_char(c)[0] <= 0xDBFF,
        1 <= utf16_of_char(c).len() <= 2,
{
}

proof fn lemma_char_injective(c: char, d: char, rest_c: Seq<u16>, rest_d: Seq<u16>)
    requires
        utf16_of_char(c) + rest_c == utf16_of_char(d) + rest_d,
    ensures
        c == d,
        rest_c == rest_d,
{
    let uc = utf16_of_char(c);
    let ud = utf16_of_char(d);
    let all = uc + rest_c;
    lemma_char_units(c);
    lemma_char_units(d);
    assert(all[0] == uc[0] && all[0] == ud[0]);
    assert(uc.len() == ud.len());
    if uc.len() == 2 {
        assert(all[1] == uc[1] && all[1] == ud[1]);
        let v = c as u32;
        let w = d as u32;
        assert(v == w);
    } else {
        assert(c as u32 == d as u32);
    }
    assert(rest_c =~= all.subrange(uc.len() as int, all.len() as int));
    assert(rest_d =~= all.subrange(ud.len() as int, all.len() as int));
}

/// Different texts have different UTF-16 encodings.
pub proof fn lemma_utf16_injective(s: Seq<char>, t: Seq<char>)
    requires
        utf16_of(s) == utf16_of(t),
    ensures
        s == t,
    decreases s.len(),
{
    if s.len() == 0 {
        if t.len() > 0 {
            lemma_char_units(t[0]);
            assert(utf16_of(t).len() > 0);
        }
        assert(t =~= s);
    } else {
        if t.len() == 0 {
            lemma_char_units(s[0]);
            assert(utf16_of(s).len() > 0);
        }
        lemma_char_injective(s[0], t[0], utf16_of(s.drop_first()), utf16_of(t.drop_first()));
        lemma_utf16_injective(s.drop_first(), t.drop_first());
        assert(s =~= seq![s[0]] + s.drop_first());
        assert(t =~= seq![t[0]] + t.drop_first());
    }
}

/// Text decoded from code units is the one text they encode.
pub proof fn lemma_decode_utf16(units: Seq<u16>, s: Seq<char>)
    requires
        utf16_of(s) == units,
    ensures
        spec_decode_utf16(units) == Ok::<Seq<char>, crate::memory::ReadError>(s),
{
    let t = choose|t: Seq<char>| utf16_of(t) == units;
    lemma_utf16_injective(s, t);
}

} // verus!
