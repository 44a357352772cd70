use vstd::prelude::*;
use vstd::std_specs::iter::IteratorSpec;

verus! {

broadcast use vstd::string::axiom_spec_iter, vstd::string::next_postcondition;

/// The UTF-16 code units of a character: one unit for a character of the
/// basic multilingual plane, a surrogate pair otherwise.
pub open spec fn utf16_units(c: char) -> Seq<u16> {
    let v = c as int;
    if v < 0x10000 {
        seq![v as u16]
    } else {
        let w = v - 0x10000;
        seq![(0xD800 + w / 0x400) as u16, (0xDC00 + w % 0x400) as u16]
    }
}

/// The UTF-16 encoding of a text.
pub open spec fn utf16_encode(s: Seq<char>) -> Seq<u16>
    decreases s.len(),
{
    if s.len() == 0 {
        Seq::empty()
    } else {
        utf16_encode(s.drop_last()) + utf16_units(s.last())
    }
}

/// The little-endian bytes of a sequence of 16-bit units: low byte first.
pub open spec fn le_bytes(units: Seq<u16>) -> Seq<u8>
    decreases units.len(),
{
    if units.len() == 0 {
        Seq::empty()
    } else {
        le_bytes(units.drop_last()) + seq![(units.last() % 256) as u8, (units.last() / 256) as u8]
    }
}

/// The standard, padded base64 text of some bytes.
pub uninterp spec fn base64_of(bytes: Seq<u8>) -> Seq<char>;

/// Appends the UTF-16 units of `c` to `out`.
fn push_utf16(out: &mut Vec<u16>, c: char)
    ensures
        final(out)@ == old(out)@ + utf16_units(c),
{
    let v = c as u32;
    if v < 0x10000 {
        out.push(v as u16);
    } else {
        let w = v - 0x10000;
        out.push((0xD800 + w / 0x400) as u16);
        out.push((0xDC00 + w % 0x400) as u16);
    }
    assert(final(out)@ =~= old(out)@ + utf16_units(c));
}

/// The UTF-16 encoding of `s`.
pub fn utf16_of_str(s: &str) -> (r: Vec<u16>)
    ensures
        r@ == utf16_encode(s@),
{
    let mut it = s.chars();
    let mut out: Vec<u16> = Vec::new();
    let ghost mut k: int = 0;
    loop
        invariant
            0 <= k <= s@.len(),
            it.obeys_prophetic_iter_laws(),
            it.remaining() == s@.skip(k),
            out@ == utf16_encode(s@.take(k)),
        ensures
            out@ == utf16_encode(s@),
        decreases s@.len() - k,
    {
        match it.next() {
            Some(c) => {
                proof {
                    assert(s@.skip(k).len() > 0);
                    assert(c == s@[k]);
                    assert(s@.take(k + 1).drop_last() =~= s@.take(k));
                    assert(s@.skip(k).drop_first() =~= s@.skip(k + 1));
                }
                push_utf16(&mut out, c);
                proof { k = k + 1; }
            },
            None => {
                proof {
                    assert(s@.skip(k).len() == 0);
                    assert(s@.take(k) =~= s@);
                }
                break;
            },
        }
    }
    out
}

/// Relies on `base64::encode` (standard alphabet, with padding): four
/// characters for each started group of three bytes. It panics only when
/// that length overflows, which the bound rules out.
#[verifier::external_body]
fn base64_encode(bytes: &Vec<u8>) -> (r: String)
    requires
        bytes@.len() <= usize::MAX / 2,
    ensures
        r@ == base64_of(bytes@),
        r@.len() == 4 * ((bytes@.len() + 2) / 3),
{
    base64::encode(bytes.as_slice())
}

/// The UTF-16 encoding of `value` followed by a NUL unit, the form in which
/// the service manager takes names and paths.
pub fn get_utf16(value: &str) -> (r: Vec<u16>)
    ensures
        r@ == utf16_encode(value@).push(0),
{
    let mut units = utf16_of_str(value);
    units.push(0);
    units
}

/// A text has at most two UTF-16 units for each character.
pub proof fn lemma_utf16_len(s: Seq<char>)
    ensures
        utf16_encode(s).len() <= 2 * s.len(),
    decreases s.len(),
{
    if s.len() > 0 {
        lemma_utf16_len(s.drop_last());
    }
}

/// Two bytes for each unit.
pub proof fn lemma_le_bytes_len(units: Seq<u16>)
    ensures
        le_bytes(units).len() == 2 * units.len(),
    decreases units.len(),
{
    if units.len() > 0 {
        lemma_le_bytes_len(units.drop_last());
    }
}

/// The little-endian bytes of `units`, low byte first.
pub fn utf16_le_bytes(units: &Vec<u16>) -> (r: Vec<u8>)
    ensures
        r@ == le_bytes(units@),
{
    let mut bytes: Vec<u8> = Vec::new();
    let mut i: usize = 0;
    while i < units.len()
        invariant
            i <= units@.len(),
            bytes@ == le_bytes(units@.take(i as int)),
        decreases units@.len() - i,
    {
        let u = units[i];
        bytes.push((u % 256) as u8);
        bytes.push((u / 256) as u8);
        proof {
            let t = units@.take(i as int + 1);
            assert(t.drop_last() =~= units@.take(i as int));
            assert(t.last() == u);
        }
        i = i + 1;
    }
    assert(units@.take(units@.len() as int) =~= units@);
    bytes
}

/// The base64 text of the little-endian UTF-16 encoding of `units`.
pub fn encode_utf16_units(units: &Vec<u16>) -> (r: String)
    requires
        units@.len() <= usize::MAX / 4,
    ensures
        r@ == base64_of(le_bytes(units@)),
        r@.len() == 4 * ((2 * units@.len() + 2) / 3),
{
    let bytes = utf16_le_bytes(units);
    proof { lemma_le_bytes_len(units@); }
    base64_encode(&bytes)
}

/// A PowerShell command in the form that `-EncodedCommand` takes: the
/// base64 text of its UTF-16LE encoding.
pub fn encode_command(command: &str) -> (r: String)
    requires
        command@.len() <= usize::MAX / 8,
    ensures
        r@ == base64_of(le_bytes(utf16_encode(command@))),
        r@.len() == 4 * ((2 * utf16_encode(command@).len() + 2) / 3),
{
    let units = utf16_of_str(command);
    proof { lemma_utf16_len(command@); }
    encode_utf16_units(&units)
}

} // verus!
