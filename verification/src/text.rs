//! Byte-level text helpers: building strings from ASCII bytes and the
//! unconditional first/last-byte strip applied to quoted literal text.

use vstd::prelude::*;
use vstd::string::StringSliceAdditionalSpecFns;
use vstd::utf8::decode_utf8;
use vstd::utf8::encode_utf8;
use vstd::utf8::valid_utf8;

verus! {

/// The characters read off a byte sequence one byte per character; the
/// intended use is ASCII bytes only.
pub open spec fn chars_of_bytes(b: Seq<u8>) -> Seq<char> {
    Seq::new(b.len(), |i: int| b[i] as char)
}

/// The bytes of a character sequence taken one byte per character; the
/// intended use is ASCII characters only.
pub open spec fn ascii_of(s: Seq<char>) -> Seq<u8> {
    Seq::new(s.len(), |i: int| s[i] as u8)
}

/// Taking bytes distributes over concatenation.
pub proof fn lemma_ascii_of_concat(a: Seq<char>, b: Seq<char>)
    ensures
        ascii_of(a + b) =~= ascii_of(a) + ascii_of(b),
{
}

/// Taking the single byte of an ASCII character is an exact round trip.
pub proof fn lemma_ascii_char_roundtrip(c: char)
    requires
        (c as int) < 128,
    ensures
        c as u8 as char == c,
        c as u8 as int == c as int,
        (c as u8) < 128,
{
    let cv: u32 = c as u32;
    assert(cv == c as int);
    assert(cv < 128);
    assert(cv as u8 as u32 == cv) by (bit_vector)
        requires
            cv < 128,
    ;
    assert(c as u8 == cv as u8);
}

/// One byte per character is an exact round trip on ASCII characters.
pub proof fn lemma_chars_roundtrip(s: Seq<char>)
    requires
        forall|i: int| 0 <= i < s.len() ==> ((#[trigger] s[i]) as int) < 128,
    ensures
        chars_of_bytes(ascii_of(s)) =~= s,
        forall|i: int| 0 <= i < ascii_of(s).len() ==> ascii_of(s)[i] < 128,
{
    assert forall|i: int|
        0 <= i < s.len() implies ascii_of(s)[i] < 128 && chars_of_bytes(ascii_of(s))[i] == s[i] by {
        assert((s[i] as int) < 128);
        lemma_ascii_char_roundtrip(s[i]);
        assert(ascii_of(s)[i] == s[i] as u8);
        assert(chars_of_bytes(ascii_of(s))[i] == s[i] as u8 as char);
    }
    assert(chars_of_bytes(ascii_of(s)) =~= s);
}

/// Relies on `String::from_utf8`: it returns the string whose bytes are
/// exactly the given vector when they form valid UTF-8, and fails
/// otherwise.
#[verifier::external_body]
fn string_from_utf8(bytes: Vec<u8>) -> (r: Option<String>)
    ensures
        match r {
            Some(s) => valid_utf8(bytes@) && s@ == decode_utf8(bytes@),
            None => !valid_utf8(bytes@),
        },
{
    match String::from_utf8(bytes) {
        Ok(s) => Some(s),
        Err(_) => None,
    }
}

/// Builds the string whose characters are the given ASCII bytes.
pub fn ascii_string(bytes: Vec<u8>) -> (r: String)
    requires
        forall|i: int| 0 <= i < bytes@.len() ==> bytes@[i] < 128,
    ensures
        r@ == chars_of_bytes(bytes@),
{
    proof {
        let cs = chars_of_bytes(bytes@);
        assert forall|i: int| 0 <= i < cs.len() implies '\0' <= #[trigger] cs[i] <= '\u{7f}' by {
            assert(bytes@[i] < 128);
        }
        assert(vstd::utf8::is_ascii_chars(cs));
        vstd::utf8::is_ascii_chars_encode_utf8(cs);
        assert(encode_utf8(cs) =~= bytes@);
        vstd::utf8::encode_utf8_valid_utf8(cs);
        vstd::utf8::encode_utf8_decode_utf8(cs);
    }
    match string_from_utf8(bytes) {
        Some(s) => s,
        None => {
            proof {
                assert(false);
            }
            vstd::pervasive::unreached()
        },
    }
}

/// Appends the bytes of an ASCII string slice to a byte vector.
pub fn push_str_bytes(out: &mut Vec<u8>, s: &str)
    requires
        vstd::string::is_ascii(s),
    ensures
        final(out)@ == old(out)@ + ascii_of(s@),
{
    broadcast use vstd::string::is_ascii_spec_bytes;

    let bytes = s.as_bytes();
    let n = bytes.len();
    let mut i: usize = 0;
    proof {
        assert(bytes@ =~= ascii_of(s@));
    }
    while i < n
        invariant
            n == bytes@.len(),
            i <= n,
            bytes@ == ascii_of(s@),
            out@ == old(out)@ + bytes@.subrange(0, i as int),
        decreases n - i,
    {
        out.push(bytes[i]);
        i = i + 1;
        proof {
            assert(out@ =~= old(out)@ + bytes@.subrange(0, i as int));
        }
    }
    proof {
        assert(bytes@.subrange(0, n as int) =~= bytes@);
    }
}

/// Drops the first and last byte of the text — the surrounding quote
/// characters of a string literal — and returns the remaining text, or
/// `None` when the text is shorter than two bytes or the remaining bytes
/// are not valid UTF-8.
pub fn strip_first_last(s: &str) -> (r: Option<String>)
    ensures
        match r {
            Some(m) => s.spec_bytes().len() >= 2 && valid_utf8(
                s.spec_bytes().subrange(1, s.spec_bytes().len() - 1),
            ) && m@ == decode_utf8(s.spec_bytes().subrange(1, s.spec_bytes().len() - 1)),
            None => s.spec_bytes().len() < 2 || !valid_utf8(
                s.spec_bytes().subrange(1, s.spec_bytes().len() - 1),
            ),
        },
{
    let bytes = s.as_bytes();
    let n = bytes.len();
    if n < 2 {
        return None;
    }
    let mut mid: Vec<u8> = Vec::new();
    let mut i: usize = 1;
    proof {
        assert(mid@ =~= bytes@.subrange(1, 1));
    }
    while i < n - 1
        invariant
            2 <= n == bytes@.len(),
            1 <= i <= n - 1,
            mid@ == bytes@.subrange(1, i as int),
        decreases n - i,
    {
        mid.push(bytes[i]);
        i = i + 1;
        proof {
            assert(mid@ =~= bytes@.subrange(1, i as int));
        }
    }
    string_from_utf8(mid)
}

} // verus!
