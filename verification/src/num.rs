//! Decimal text for the numeric lattice: what integer a piece of literal
//! text denotes, and the canonical decimal (and hexadecimal) rendering of
//! an integer. The executable scanners and formatters are proved against
//! these spec functions.

use vstd::prelude::*;

verus! {

/// Whether `c` is an ASCII decimal digit.
pub open spec fn is_dec_digit(c: char) -> bool {
    48 <= c as int && c as int <= 57
}

/// The numeric value of a decimal digit character.
pub open spec fn digit_val(c: char) -> int {
    c as int - 48
}

/// Whether every character of `s` is a decimal digit.
pub open spec fn all_digits(s: Seq<char>) -> bool {
    forall|i: int| 0 <= i < s.len() ==> is_dec_digit(#[trigger] s[i])
}

/// The value of a digit string, most significant digit first.
pub open spec fn digits_val(s: Seq<char>) -> nat
    decreases s.len(),
{
    if s.len() == 0 {
        0
    } else {
        digits_val(s.drop_last()) * 10 + (if digit_val(s.last()) >= 0 {
            digit_val(s.last()) as nat
        } else {
            0
        })
    }
}

/// Ten to the power `n`.
pub open spec fn pow10(n: nat) -> nat
    decreases n,
{
    if n == 0 {
        1
    } else {
        10 * pow10((n - 1) as nat)
    }
}

/// The digit region of signed decimal text: everything after an optional
/// leading sign character.
pub open spec fn dec_digits_region(s: Seq<char>) -> Seq<char> {
    if s.len() > 0 && (s[0] == '-' || s[0] == '+') {
        s.subrange(1, s.len() as int)
    } else {
        s
    }
}

/// Whether `s` holds a leading minus sign.
pub open spec fn dec_is_negative(s: Seq<char>) -> bool {
    s.len() > 0 && s[0] == '-'
}

/// Whether `s` is well-formed decimal text: an optional sign followed by
/// one or more digits.
pub open spec fn dec_valid(s: Seq<char>) -> bool {
    dec_digits_region(s).len() > 0 && all_digits(dec_digits_region(s))
}

/// The integer denoted by decimal text, or `None` when malformed.
pub open spec fn dec_int_of(s: Seq<char>) -> Option<int> {
    if dec_valid(s) {
        if dec_is_negative(s) {
            Some(-(digits_val(dec_digits_region(s)) as int))
        } else {
            Some(digits_val(dec_digits_region(s)) as int)
        }
    } else {
        None
    }
}

/// What the executable scanner returns: the sign and the magnitude of the
/// denoted integer, when the text is well formed and the magnitude fits a
/// machine word of 128 bits.
pub open spec fn scan_spec(s: Seq<char>) -> Option<(bool, u128)> {
    if dec_valid(s) && digits_val(dec_digits_region(s)) <= u128::MAX {
        Some((dec_is_negative(s), digits_val(dec_digits_region(s)) as u128))
    } else {
        None
    }
}

/// The integer denoted by `s` when it lies within `[lo, hi]`.
pub open spec fn spec_parse_int(s: Seq<char>, lo: int, hi: int) -> Option<int> {
    match dec_int_of(s) {
        Some(v) => if lo <= v && v <= hi {
            Some(v)
        } else {
            None
        },
        None => None,
    }
}

/// The integer denoted by `s` when it is unsigned text (no minus sign at
/// all, matching how unsigned types read decimal text) within `[0, hi]`.
pub open spec fn spec_parse_uint(s: Seq<char>, hi: int) -> Option<int> {
    match dec_int_of(s) {
        Some(v) => if !dec_is_negative(s) && v <= hi {
            Some(v)
        } else {
            None
        },
        None => None,
    }
}

pub proof fn lemma_pow10_pos(n: nat)
    ensures
        pow10(n) >= 1,
    decreases n,
{
    if n > 0 {
        lemma_pow10_pos((n - 1) as nat);
    }
}

/// Splitting a digit string: the left part is scaled by ten to the length
/// of the right part.
pub proof fn lemma_digits_val_append(p: Seq<char>, s: Seq<char>)
    ensures
        digits_val(p + s) == digits_val(p) * pow10(s.len()) + digits_val(s),
    decreases s.len(),
{
    if s.len() == 0 {
        assert(p + s =~= p);
        assert(pow10(s.len()) == 1);
        assert(digits_val(s) == 0);
        assert(digits_val(p + s) == digits_val(p) * pow10(s.len()) + digits_val(s));
    } else {
        let s0 = s.drop_last();
        lemma_digits_val_append(p, s0);
        assert((p + s).drop_last() =~= p + s0);
        assert((p + s).last() == s.last());
        let d: nat = if digit_val(s.last()) >= 0 {
            digit_val(s.last()) as nat
        } else {
            0
        };
        assert(digits_val(p + s) == digits_val(p + s0) * 10 + d);
        assert(digits_val(s) == digits_val(s0) * 10 + d);
        assert(digits_val(p + s) == (digits_val(p) * pow10(s0.len()) + digits_val(s0)) * 10 + d);
        assert((digits_val(p) * pow10(s0.len()) + digits_val(s0)) * 10 == digits_val(p) * (pow10(
            s0.len(),
        ) * 10) + digits_val(s0) * 10) by (nonlinear_arith);
        assert(pow10(s0.len()) * 10 == pow10(s.len()));
        assert(digits_val(p) * (pow10(s0.len()) * 10) == digits_val(p) * pow10(s.len()));
        assert(digits_val(p + s) == digits_val(p) * pow10(s.len()) + (digits_val(s0) * 10 + d));
    }
}

/// Well-formed decimal text is ASCII.
pub proof fn lemma_dec_valid_ascii(s: Seq<char>)
    requires
        dec_valid(s),
    ensures
        vstd::utf8::is_ascii_chars(s),
{
    let region = dec_digits_region(s);
    assert forall|i: int| 0 <= i < s.len() implies '\0' <= #[trigger] s[i] <= '\u{7f}' by {
        if s.len() > 0 && (s[0] == '-' || s[0] == '+') {
            if i > 0 {
                assert(s[i] == region[i - 1]);
                assert(is_dec_digit(region[i - 1]));
            }
        } else {
            assert(s[i] == region[i]);
            assert(is_dec_digit(region[i]));
        }
    }
}

/// Scans decimal text: an optional sign, then digits, accumulating the
/// magnitude and refusing overflow past 128 bits.
pub fn scan_int(s: &str) -> (r: Option<(bool, u128)>)
    ensures
        r == scan_spec(s@),
{
    broadcast use vstd::string::is_ascii_spec_bytes;

    if !s.is_ascii() {
        proof {
            if dec_valid(s@) {
                lemma_dec_valid_ascii(s@);
            }
        }
        return None;
    }
    let bytes = s.as_bytes();
    let n = bytes.len();
    proof {
        assert(bytes@.len() == s@.len());
    }
    if n == 0 {
        return None;
    }
    let mut start: usize = 0;
    let mut neg: bool = false;
    if bytes[0] == 43 || bytes[0] == 45 {
        neg = bytes[0] == 45;
        start = 1;
    }
    proof {
        assert(s@[0] as u8 == bytes@[0]);
        assert(dec_digits_region(s@) =~= s@.subrange(start as int, n as int));
        assert(neg == dec_is_negative(s@));
    }
    if start >= n {
        // a bare sign with no digits
        return None;
    }
    let ghost region = dec_digits_region(s@);
    let mut mag: u128 = 0;
    let mut j: usize = start;
    while j < n
        invariant
            vstd::utf8::is_ascii_chars(s@),
            bytes@.len() == s@.len(),
            forall|i: int| 0 <= i < s@.len() ==> bytes@[i] == #[trigger] s@[i] as u8,
            start <= j <= n,
            start < n,
            n == s@.len(),
            region == dec_digits_region(s@),
            region == s@.subrange(start as int, n as int),
            neg == dec_is_negative(s@),
            all_digits(region.subrange(0, j - start)),
            mag == digits_val(region.subrange(0, j - start)),
        decreases n - j,
    {
        let b = bytes[j];
        proof {
            assert(s@[j as int] as u8 == b);
            assert(region[j - start] == s@[j as int]);
        }
        if b < 48 || b > 57 {
            proof {
                assert(!is_dec_digit(region[j - start]));
                assert(!all_digits(region));
            }
            return None;
        }
        let d: u128 = (b - 48) as u128;
        let ghost pre = region.subrange(0, j - start);
        let ghost pre1 = region.subrange(0, j - start + 1);
        proof {
            assert(pre1.drop_last() =~= pre);
            assert(pre1.last() == region[j - start]);
            assert(digits_val(pre1) == mag * 10 + d);
        }
        let step = match mag.checked_mul(10) {
            Some(m) => m.checked_add(d),
            None => None,
        };
        match step {
            Some(m) => {
                mag = m;
            },
            None => {
                proof {
                    if dec_valid(s@) {
                        lemma_digits_val_append(pre1, region.subrange(j - start + 1, region.len() as int));
                        assert(pre1 + region.subrange(j - start + 1, region.len() as int) =~= region);
                        lemma_pow10_pos(region.subrange(j - start + 1, region.len() as int).len());
                        assert(digits_val(region) >= digits_val(pre1)) by (nonlinear_arith)
                            requires
                                digits_val(region) == digits_val(pre1) * pow10(
                                    region.subrange(j - start + 1, region.len() as int).len(),
                                ) + digits_val(region.subrange(j - start + 1, region.len() as int)),
                                pow10(region.subrange(j - start + 1, region.len() as int).len()) >= 1,
                        ;
                        assert(digits_val(region) > u128::MAX);
                    }
                }
                return None;
            },
        }
        j = j + 1;
        proof {
            assert(region.subrange(0, j - start) =~= pre1);
        }
    }
    proof {
        assert(region.subrange(0, j - start) =~= region);
        assert(dec_valid(s@));
    }
    Some((neg, mag))
}

/// Parses signed decimal text within `[lo, hi]`; `lo` and `hi` are the
/// bounds of a two's-complement width, so `-lo == hi + 1`.
pub fn parse_signed(s: &str, lo: i128, hi: i128) -> (r: Option<i128>)
    requires
        lo < 0 < hi,
        -(lo as int) == hi as int + 1,
    ensures
        r == (match spec_parse_int(s@, lo as int, hi as int) {
            Some(v) => Some(v as i128),
            None => None::<i128>,
        }),
{
    match scan_int(s) {
        Some((neg, mag)) => {
            if neg {
                let abs_lo: u128 = ((-(lo + 1)) as u128) + 1;
                if mag <= abs_lo {
                    if mag > (hi as u128) {
                        proof {
                            assert(mag == abs_lo);
                        }
                        Some(lo)
                    } else {
                        Some(-(mag as i128))
                    }
                } else {
                    None
                }
            } else {
                if mag <= (hi as u128) {
                    Some(mag as i128)
                } else {
                    None
                }
            }
        },
        None => {
            proof {
                if dec_valid(s@) {
                    assert(digits_val(dec_digits_region(s@)) > u128::MAX);
                }
            }
            None
        },
    }
}

/// Parses unsigned decimal text within `[0, hi]`; a minus sign is refused
/// outright, as unsigned machine types read decimal text.
pub fn parse_unsigned(s: &str, hi: u128) -> (r: Option<u128>)
    ensures
        r == (match spec_parse_uint(s@, hi as int) {
            Some(v) => Some(v as u128),
            None => None::<u128>,
        }),
{
    match scan_int(s) {
        Some((neg, mag)) => {
            if neg || mag > hi {
                None
            } else {
                Some(mag)
            }
        },
        None => {
            proof {
                if dec_valid(s@) {
                    assert(digits_val(dec_digits_region(s@)) > u128::MAX);
                }
            }
            None
        },
    }
}

/// The character for decimal digit `d`.
pub open spec fn digit_char(d: int) -> char {
    ((48 + d) as u8) as char
}

/// The character for hexadecimal digit `d`, lower case.
pub open spec fn hex_char(d: int) -> char {
    if d < 10 {
        digit_char(d)
    } else {
        ((87 + d) as u8) as char
    }
}

/// The canonical decimal rendering of a natural number.
pub open spec fn dec_chars(n: nat) -> Seq<char>
    decreases n,
{
    if n < 10 {
        seq![digit_char(n as int)]
    } else {
        dec_chars(n / 10).push(digit_char((n % 10) as int))
    }
}

/// The canonical decimal rendering of an integer: a minus sign for
/// negative values, then the digits of the magnitude.
pub open spec fn int_chars(v: int) -> Seq<char> {
    if v < 0 {
        seq!['-'] + dec_chars((-v) as nat)
    } else {
        dec_chars(v as nat)
    }
}

/// The hexadecimal rendering of a natural number, lower case, no prefix.
pub open spec fn hex_chars(n: nat) -> Seq<char>
    decreases n,
{
    if n < 16 {
        seq![hex_char(n as int)]
    } else {
        hex_chars(n / 16).push(hex_char((n % 16) as int))
    }
}

/// `s` left-padded with zero characters up to width `w`.
pub open spec fn zero_pad(s: Seq<char>, w: int) -> Seq<char> {
    if s.len() >= w {
        s
    } else {
        Seq::new((w - s.len()) as nat, |i: int| '0') + s
    }
}

/// Every character of a decimal rendering is an ASCII digit.
pub proof fn lemma_dec_chars_ascii(n: nat)
    ensures
        forall|i: int|
            0 <= i < dec_chars(n).len() ==> 48 <= #[trigger] dec_chars(n)[i] as int <= 57,
    decreases n,
{
    if n >= 10 {
        lemma_dec_chars_ascii(n / 10);
        assert forall|i: int|
            0 <= i < dec_chars(n).len() implies 48 <= #[trigger] dec_chars(n)[i] as int <= 57 by {
            if i < dec_chars(n).len() - 1 {
                assert(dec_chars(n)[i] == dec_chars(n / 10)[i]);
            }
        }
    }
}

/// Every character of a hexadecimal rendering is an ASCII digit or letter.
pub proof fn lemma_hex_chars_ascii(n: nat)
    ensures
        forall|i: int|
            0 <= i < hex_chars(n).len() ==> 48 <= #[trigger] hex_chars(n)[i] as int <= 102,
    decreases n,
{
    if n >= 16 {
        lemma_hex_chars_ascii(n / 16);
        assert forall|i: int|
            0 <= i < hex_chars(n).len() implies 48 <= #[trigger] hex_chars(n)[i] as int <= 102 by {
            if i < hex_chars(n).len() - 1 {
                assert(hex_chars(n)[i] == hex_chars(n / 16)[i]);
            }
        }
    }
}

/// Appends the decimal digits of `n` as ASCII bytes.
pub fn push_dec_digits(out: &mut Vec<u8>, n: u128)
    ensures
        final(out)@ == old(out)@ + crate::text::ascii_of(dec_chars(n as nat)),
    decreases n,
{
    if n < 10 {
        out.push(48 + (n as u8));
        proof {
            assert(out@ =~= old(out)@ + crate::text::ascii_of(dec_chars(n as nat)));
        }
    } else {
        push_dec_digits(out, n / 10);
        out.push(48 + ((n % 10) as u8));
        proof {
            assert(out@ =~= old(out)@ + crate::text::ascii_of(dec_chars(n as nat)));
        }
    }
}

/// Appends the hexadecimal digits of `n` as ASCII bytes, lower case.
pub fn push_hex_digits(out: &mut Vec<u8>, n: u128)
    ensures
        final(out)@ == old(out)@ + crate::text::ascii_of(hex_chars(n as nat)),
    decreases n,
{
    if n < 16 {
        let d = n as u8;
        out.push(if d < 10 {
            48 + d
        } else {
            87 + d
        });
        proof {
            assert(out@ =~= old(out)@ + crate::text::ascii_of(hex_chars(n as nat)));
        }
    } else {
        push_hex_digits(out, n / 16);
        let d = (n % 16) as u8;
        out.push(if d < 10 {
            48 + d
        } else {
            87 + d
        });
        proof {
            assert(out@ =~= old(out)@ + crate::text::ascii_of(hex_chars(n as nat)));
        }
    }
}

/// The canonical decimal string of an unsigned value.
pub fn u128_string(n: u128) -> (r: String)
    ensures
        r@ == dec_chars(n as nat),
{
    let mut out: Vec<u8> = Vec::new();
    push_dec_digits(&mut out, n);
    proof {
        lemma_dec_chars_ascii(n as nat);
        assert(out@ =~= crate::text::ascii_of(dec_chars(n as nat)));
        assert(crate::text::chars_of_bytes(out@) =~= dec_chars(n as nat));
    }
    crate::text::ascii_string(out)
}

/// The canonical decimal string of a signed value.
pub fn i128_string(v: i128) -> (r: String)
    ensures
        r@ == int_chars(v as int),
{
    let mut out: Vec<u8> = Vec::new();
    if v < 0 {
        out.push(45);
        let mag: u128 = if v == i128::MIN {
            (i128::MAX as u128) + 1
        } else {
            (-v) as u128
        };
        push_dec_digits(&mut out, mag);
        proof {
            lemma_dec_chars_ascii(mag as nat);
            assert(out@ =~= seq![45u8] + crate::text::ascii_of(dec_chars(mag as nat)));
            assert(crate::text::chars_of_bytes(out@) =~= int_chars(v as int));
        }
    } else {
        push_dec_digits(&mut out, v as u128);
        proof {
            lemma_dec_chars_ascii((v as u128) as nat);
            assert(out@ =~= crate::text::ascii_of(dec_chars((v as u128) as nat)));
            assert(crate::text::chars_of_bytes(out@) =~= int_chars(v as int));
        }
    }
    crate::text::ascii_string(out)
}

/// Appends the hexadecimal digits of `n`, zero-padded to at least `width`
/// characters.
pub fn push_hex_padded(out: &mut Vec<u8>, n: u128, width: usize)
    ensures
        final(out)@ == old(out)@ + crate::text::ascii_of(zero_pad(hex_chars(n as nat), width as int)),
{
    let mut digs: Vec<u8> = Vec::new();
    push_hex_digits(&mut digs, n);
    let mut pad: usize = 0;
    let ghost target = zero_pad(hex_chars(n as nat), width as int);
    while pad + digs.len() < width
        invariant
            digs@ == crate::text::ascii_of(hex_chars(n as nat)),
            pad + digs@.len() <= if width > digs@.len() {
                width as int
            } else {
                digs@.len() as int
            },
            out@ == old(out)@ + Seq::new(pad as nat, |i: int| 48u8),
        decreases width - pad,
    {
        out.push(48);
        pad = pad + 1;
        proof {
            assert(out@ =~= old(out)@ + Seq::new(pad as nat, |i: int| 48u8));
        }
    }
    let mut k: usize = 0;
    while k < digs.len()
        invariant
            digs@ == crate::text::ascii_of(hex_chars(n as nat)),
            k <= digs@.len(),
            pad + digs@.len() >= width,
            pad <= if width > digs@.len() {
                width as int
            } else {
                0
            },
            out@ == old(out)@ + Seq::new(pad as nat, |i: int| 48u8) + digs@.subrange(0, k as int),
        decreases digs@.len() - k,
    {
        out.push(digs[k]);
        k = k + 1;
        proof {
            assert(out@ =~= old(out)@ + Seq::new(pad as nat, |i: int| 48u8) + digs@.subrange(
                0,
                k as int,
            ));
        }
    }
    proof {
        assert(digs@.subrange(0, digs@.len() as int) =~= digs@);
        assert(out@ =~= old(out)@ + crate::text::ascii_of(target));
    }
}

} // verus!
