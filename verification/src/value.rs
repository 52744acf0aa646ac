//! The typed value lattice: a closed tagged union of twelve numeric kinds,
//! text, and two function kinds, with typed parsing from literal text,
//! total rendering to text, and fallible extraction back to native types.
//!
//! Floating-point values are carried purely as their IEEE-754 bit
//! patterns: the verified core never computes with host floats, and leaves
//! decimal float conversion to its host.

use vstd::prelude::*;
use vstd::utf8::decode_utf8;
use vstd::utf8::encode_utf8;
use vstd::utf8::valid_utf8;

use crate::error::Feature;
use crate::error::ParseError;
use crate::num::dec_chars;
use crate::num::hex_chars;
use crate::num::int_chars;
use crate::num::spec_parse_int;
use crate::num::spec_parse_uint;
use crate::num::zero_pad;
use crate::token::TypeKind;

verus! {

/// The mathematical shape of a value: the same lattice with text as a
/// character sequence.
pub enum HugValueV {
    Int8(i8),
    Int16(i16),
    Int32(i32),
    Int64(i64),
    Int128(i128),
    UInt8(u8),
    UInt16(u16),
    UInt32(u32),
    UInt64(u64),
    UInt128(u128),
    Float32(u32),
    Float64(u64),
    String(Seq<char>),
    Function(usize),
    ExternalFunction(usize),
}

/// A runtime value of the language: exactly one variant is active.
/// `Float32` and `Float64` hold IEEE-754 bit patterns; `Function` holds an
/// opaque code address, `ExternalFunction` the address of a native
/// callable.
#[derive(Debug, Clone, PartialEq)]
pub enum HugValue {
    Int8(i8),
    Int16(i16),
    Int32(i32),
    Int64(i64),
    Int128(i128),
    UInt8(u8),
    UInt16(u16),
    UInt32(u32),
    UInt64(u64),
    UInt128(u128),
    Float32(u32),
    Float64(u64),
    String(String),
    Function(usize),
    ExternalFunction(usize),
}

impl DeepView for HugValue {
    type V = HugValueV;

    open spec fn deep_view(&self) -> HugValueV {
        match *self {
            HugValue::Int8(x) => HugValueV::Int8(x),
            HugValue::Int16(x) => HugValueV::Int16(x),
            HugValue::Int32(x) => HugValueV::Int32(x),
            HugValue::Int64(x) => HugValueV::Int64(x),
            HugValue::Int128(x) => HugValueV::Int128(x),
            HugValue::UInt8(x) => HugValueV::UInt8(x),
            HugValue::UInt16(x) => HugValueV::UInt16(x),
            HugValue::UInt32(x) => HugValueV::UInt32(x),
            HugValue::UInt64(x) => HugValueV::UInt64(x),
            HugValue::UInt128(x) => HugValueV::UInt128(x),
            HugValue::Float32(x) => HugValueV::Float32(x),
            HugValue::Float64(x) => HugValueV::Float64(x),
            HugValue::String(ref s) => HugValueV::String(s@),
            HugValue::Function(p) => HugValueV::Function(p),
            HugValue::ExternalFunction(p) => HugValueV::ExternalFunction(p),
        }
    }
}

/// A recoverable type mismatch: extraction was asked for a native type
/// other than the active variant.
#[derive(Debug, Clone, Copy, PartialEq, Eq, Structural)]
pub struct TypeError;

/// The value literal text denotes under a declared type tag, or the exact
/// error: numeric tags read decimal text within the tag's range, the
/// string tag drops the surrounding quote bytes, float and user tags are
/// not implemented in this core.
pub open spec fn spec_parse_from_type(t: TypeKind, raw: Seq<char>) -> Result<HugValueV, ParseError> {
    match t {
        TypeKind::Int8 => match spec_parse_int(raw, i8::MIN as int, i8::MAX as int) {
            Some(v) => Ok(HugValueV::Int8(v as i8)),
            None => Err(ParseError::InvalidLiteral { declared: t }),
        },
        TypeKind::Int16 => match spec_parse_int(raw, i16::MIN as int, i16::MAX as int) {
            Some(v) => Ok(HugValueV::Int16(v as i16)),
            None => Err(ParseError::InvalidLiteral { declared: t }),
        },
        TypeKind::Int32 => match spec_parse_int(raw, i32::MIN as int, i32::MAX as int) {
            Some(v) => Ok(HugValueV::Int32(v as i32)),
            None => Err(ParseError::InvalidLiteral { declared: t }),
        },
        TypeKind::Int64 => match spec_parse_int(raw, i64::MIN as int, i64::MAX as int) {
            Some(v) => Ok(HugValueV::Int64(v as i64)),
            None => Err(ParseError::InvalidLiteral { declared: t }),
        },
        TypeKind::Int128 => match spec_parse_int(raw, i128::MIN as int, i128::MAX as int) {
            Some(v) => Ok(HugValueV::Int128(v as i128)),
            None => Err(ParseError::InvalidLiteral { declared: t }),
        },
        TypeKind::UInt8 => match spec_parse_uint(raw, u8::MAX as int) {
            Some(v) => Ok(HugValueV::UInt8(v as u8)),
            None => Err(ParseError::InvalidLiteral { declared: t }),
        },
        TypeKind::UInt16 => match spec_parse_uint(raw, u16::MAX as int) {
            Some(v) => Ok(HugValueV::UInt16(v as u16)),
            None => Err(ParseError::InvalidLiteral { declared: t }),
        },
        TypeKind::UInt32 => match spec_parse_uint(raw, u32::MAX as int) {
            Some(v) => Ok(HugValueV::UInt32(v as u32)),
            None => Err(ParseError::InvalidLiteral { declared: t }),
        },
        TypeKind::UInt64 => match spec_parse_uint(raw, u64::MAX as int) {
            Some(v) => Ok(HugValueV::UInt64(v as u64)),
            None => Err(ParseError::InvalidLiteral { declared: t }),
        },
        TypeKind::UInt128 => match spec_parse_uint(raw, u128::MAX as int) {
            Some(v) => Ok(HugValueV::UInt128(v as u128)),
            None => Err(ParseError::InvalidLiteral { declared: t }),
        },
        TypeKind::Float32 => Err(
            ParseError::NotYetImplemented { feature: Feature::FloatLiteral },
        ),
        TypeKind::Float64 => Err(
            ParseError::NotYetImplemented { feature: Feature::FloatLiteral },
        ),
        TypeKind::String => {
            let b = encode_utf8(raw);
            if b.len() >= 2 && valid_utf8(b.subrange(1, b.len() - 1)) {
                Ok(HugValueV::String(decode_utf8(b.subrange(1, b.len() - 1))))
            } else {
                Err(ParseError::InvalidLiteral { declared: t })
            }
        },
        TypeKind::Other(_) => Err(
            ParseError::NotYetImplemented { feature: Feature::UserDefinedType },
        ),
    }
}

/// Construction of a value from raw literal text, keyed by an explicit
/// declared type tag.
pub trait TypedDefinition: Sized {
    /// Whether parsing `raw` under tag `t` yields exactly `v`.
    spec fn parses_to(t: TypeKind, raw: Seq<char>, v: Self) -> bool;

    /// The error parsing `raw` under tag `t` yields, when it fails.
    spec fn parse_error_of(t: TypeKind, raw: Seq<char>) -> Option<ParseError>;

    /// Parses literal text under a declared type tag; fails exactly on
    /// text the tag cannot read.
    fn parse_from_type(t: TypeKind, value: String) -> (r: Result<Self, ParseError>)
        ensures
            match r {
                Ok(v) => Self::parse_error_of(t, value@) is None && Self::parses_to(t, value@, v),
                Err(e) => Self::parse_error_of(t, value@) == Some(e),
            },
    ;
}

impl TypedDefinition for HugValue {
    open spec fn parses_to(t: TypeKind, raw: Seq<char>, v: HugValue) -> bool {
        spec_parse_from_type(t, raw) == Ok::<HugValueV, ParseError>(v.deep_view())
    }

    open spec fn parse_error_of(t: TypeKind, raw: Seq<char>) -> Option<ParseError> {
        match spec_parse_from_type(t, raw) {
            Ok(_) => None,
            Err(e) => Some(e),
        }
    }

    fn parse_from_type(t: TypeKind, value: String) -> (r: Result<HugValue, ParseError>) {
        let s = value.as_str();
        match t {
            TypeKind::Int8 => match crate::num::parse_signed(s, i8::MIN as i128, i8::MAX as i128) {
                Some(v) => Ok(HugValue::Int8(v as i8)),
                None => Err(ParseError::InvalidLiteral { declared: t }),
            },
            TypeKind::Int16 => match crate::num::parse_signed(
                s,
                i16::MIN as i128,
                i16::MAX as i128,
            ) {
                Some(v) => Ok(HugValue::Int16(v as i16)),
                None => Err(ParseError::InvalidLiteral { declared: t }),
            },
            TypeKind::Int32 => match crate::num::parse_signed(
                s,
                i32::MIN as i128,
                i32::MAX as i128,
            ) {
                Some(v) => Ok(HugValue::Int32(v as i32)),
                None => Err(ParseError::InvalidLiteral { declared: t }),
            },
            TypeKind::Int64 => match crate::num::parse_signed(
                s,
                i64::MIN as i128,
                i64::MAX as i128,
            ) {
                Some(v) => Ok(HugValue::Int64(v as i64)),
                None => Err(ParseError::InvalidLiteral { declared: t }),
            },
            TypeKind::Int128 => match crate::num::parse_signed(s, i128::MIN, i128::MAX) {
                Some(v) => Ok(HugValue::Int128(v)),
                None => Err(ParseError::InvalidLiteral { declared: t }),
            },
            TypeKind::UInt8 => match crate::num::parse_unsigned(s, u8::MAX as u128) {
                Some(v) => Ok(HugValue::UInt8(v as u8)),
                None => Err(ParseError::InvalidLiteral { declared: t }),
            },
            TypeKind::UInt16 => match crate::num::parse_unsigned(s, u16::MAX as u128) {
                Some(v) => Ok(HugValue::UInt16(v as u16)),
                None => Err(ParseError::InvalidLiteral { declared: t }),
            },
            TypeKind::UInt32 => match crate::num::parse_unsigned(s, u32::MAX as u128) {
                Some(v) => Ok(HugValue::UInt32(v as u32)),
                None => Err(ParseError::InvalidLiteral { declared: t }),
            },
            TypeKind::UInt64 => match crate::num::parse_unsigned(s, u64::MAX as u128) {
                Some(v) => Ok(HugValue::UInt64(v as u64)),
                None => Err(ParseError::InvalidLiteral { declared: t }),
            },
            TypeKind::UInt128 => match crate::num::parse_unsigned(s, u128::MAX) {
                Some(v) => Ok(HugValue::UInt128(v)),
                None => Err(ParseError::InvalidLiteral { declared: t }),
            },
            TypeKind::Float32 => Err(
                ParseError::NotYetImplemented { feature: Feature::FloatLiteral },
            ),
            TypeKind::Float64 => Err(
                ParseError::NotYetImplemented { feature: Feature::FloatLiteral },
            ),
            TypeKind::String => match crate::text::strip_first_last(s) {
                Some(m) => Ok(HugValue::String(m)),
                None => Err(ParseError::InvalidLiteral { declared: t }),
            },
            TypeKind::Other(_) => Err(
                ParseError::NotYetImplemented { feature: Feature::UserDefinedType },
            ),
        }
    }
}

/// The total, deterministic rendering of a value to text: numerics in
/// their canonical decimal form, text verbatim, functions as a tagged
/// placeholder holding their address, floats as a tagged placeholder
/// holding their bit pattern.
pub open spec fn value_text(v: HugValueV) -> Seq<char> {
    match v {
        HugValueV::Int8(x) => int_chars(x as int),
        HugValueV::Int16(x) => int_chars(x as int),
        HugValueV::Int32(x) => int_chars(x as int),
        HugValueV::Int64(x) => int_chars(x as int),
        HugValueV::Int128(x) => int_chars(x as int),
        HugValueV::UInt8(x) => dec_chars(x as nat),
        HugValueV::UInt16(x) => dec_chars(x as nat),
        HugValueV::UInt32(x) => dec_chars(x as nat),
        HugValueV::UInt64(x) => dec_chars(x as nat),
        HugValueV::UInt128(x) => dec_chars(x as nat),
        HugValueV::Float32(b) => "<Float32 [0x"@ + zero_pad(hex_chars(b as nat), 8) + "]>"@,
        HugValueV::Float64(b) => "<Float64 [0x"@ + zero_pad(hex_chars(b as nat), 16) + "]>"@,
        HugValueV::String(s) => s,
        HugValueV::Function(p) => "<Function [0x"@ + zero_pad(hex_chars(p as nat), 8) + "]>"@,
        HugValueV::ExternalFunction(p) => "<ExternalFunction [0x"@ + zero_pad(hex_chars(p as nat), 1)
            + "]>"@,
    }
}

/// Builds `prefix`, the zero-padded hexadecimal digits of `n`, and a
/// closing bracket pair.
fn tagged_hex_string(prefix: &str, n: u128, width: usize) -> (r: String)
    requires
        vstd::string::is_ascii(prefix),
    ensures
        r@ == prefix@ + zero_pad(hex_chars(n as nat), width as int) + "]>"@,
{
    let mut out: Vec<u8> = Vec::new();
    crate::text::push_str_bytes(&mut out, prefix);
    crate::num::push_hex_padded(&mut out, n, width);
    proof {
        reveal_strlit("]>");
        assert(vstd::utf8::is_ascii_chars("]>"@));
    }
    crate::text::push_str_bytes(&mut out, "]>");
    let ghost total = prefix@ + zero_pad(hex_chars(n as nat), width as int) + "]>"@;
    proof {
        let z = zero_pad(hex_chars(n as nat), width as int);
        crate::num::lemma_hex_chars_ascii(n as nat);
        assert forall|i: int| 0 <= i < z.len() implies ((#[trigger] z[i]) as int) < 128 by {
            if hex_chars(n as nat).len() >= width {
                assert(z[i] == hex_chars(n as nat)[i]);
            } else {
                if i >= width - hex_chars(n as nat).len() {
                    assert(z[i] == hex_chars(n as nat)[i - (width - hex_chars(n as nat).len())]);
                }
            }
        }
        assert forall|i: int| 0 <= i < total.len() implies ((#[trigger] total[i]) as int) < 128 by {
            let p = prefix@;
            let sfx = "]>"@;
            if i < p.len() {
                assert(total[i] == p[i]);
            } else if i < p.len() + z.len() {
                assert(total[i] == z[i - p.len()]);
            } else {
                assert(total[i] == sfx[i - p.len() - z.len()]);
            }
        }
        crate::text::lemma_ascii_of_concat(p_seq(prefix@, z), "]>"@);
        crate::text::lemma_ascii_of_concat(prefix@, z);
        crate::text::lemma_chars_roundtrip(total);
        assert(out@ =~= crate::text::ascii_of(total));
    }
    crate::text::ascii_string(out)
}

/// The concatenation of two character sequences, named so proofs can speak
/// of the left part of a three-way concatenation.
pub open spec fn p_seq(a: Seq<char>, b: Seq<char>) -> Seq<char> {
    a + b
}

impl HugValue {
    /// An exact copy of this value.
    pub fn duplicate(&self) -> (r: HugValue)
        ensures
            r.deep_view() == self.deep_view(),
    {
        match self {
            HugValue::Int8(x) => HugValue::Int8(*x),
            HugValue::Int16(x) => HugValue::Int16(*x),
            HugValue::Int32(x) => HugValue::Int32(*x),
            HugValue::Int64(x) => HugValue::Int64(*x),
            HugValue::Int128(x) => HugValue::Int128(*x),
            HugValue::UInt8(x) => HugValue::UInt8(*x),
            HugValue::UInt16(x) => HugValue::UInt16(*x),
            HugValue::UInt32(x) => HugValue::UInt32(*x),
            HugValue::UInt64(x) => HugValue::UInt64(*x),
            HugValue::UInt128(x) => HugValue::UInt128(*x),
            HugValue::Float32(x) => HugValue::Float32(*x),
            HugValue::Float64(x) => HugValue::Float64(*x),
            HugValue::String(s) => HugValue::String(s.clone()),
            HugValue::Function(p) => HugValue::Function(*p),
            HugValue::ExternalFunction(p) => HugValue::ExternalFunction(*p),
        }
    }

    /// Renders this value as text; total for every variant.
    pub fn to_string(&self) -> (r: String)
        ensures
            r@ == value_text(self.deep_view()),
    {
        match self {
            HugValue::Int8(x) => crate::num::i128_string(*x as i128),
            HugValue::Int16(x) => crate::num::i128_string(*x as i128),
            HugValue::Int32(x) => crate::num::i128_string(*x as i128),
            HugValue::Int64(x) => crate::num::i128_string(*x as i128),
            HugValue::Int128(x) => crate::num::i128_string(*x),
            HugValue::UInt8(x) => crate::num::u128_string(*x as u128),
            HugValue::UInt16(x) => crate::num::u128_string(*x as u128),
            HugValue::UInt32(x) => crate::num::u128_string(*x as u128),
            HugValue::UInt64(x) => crate::num::u128_string(*x as u128),
            HugValue::UInt128(x) => crate::num::u128_string(*x),
            HugValue::Float32(b) => {
                proof {
                    reveal_strlit("<Float32 [0x");
                    assert(vstd::utf8::is_ascii_chars("<Float32 [0x"@));
                }
                tagged_hex_string("<Float32 [0x", *b as u128, 8)
            },
            HugValue::Float64(b) => {
                proof {
                    reveal_strlit("<Float64 [0x");
                    assert(vstd::utf8::is_ascii_chars("<Float64 [0x"@));
                }
                tagged_hex_string("<Float64 [0x", *b as u128, 16)
            },
            HugValue::String(s) => s.clone(),
            HugValue::Function(p) => {
                proof {
                    reveal_strlit("<Function [0x");
                    assert(vstd::utf8::is_ascii_chars("<Function [0x"@));
                }
                tagged_hex_string("<Function [0x", *p as u128, 8)
            },
            HugValue::ExternalFunction(p) => {
                proof {
                    reveal_strlit("<ExternalFunction [0x");
                    assert(vstd::utf8::is_ascii_chars("<ExternalFunction [0x"@));
                }
                tagged_hex_string("<ExternalFunction [0x", *p as u128, 1)
            },
        }
    }
}

impl From<i8> for HugValue {
    fn from(input: i8) -> (r: HugValue) {
        HugValue::Int8(input)
    }
}

impl vstd::std_specs::convert::FromSpecImpl<i8> for HugValue {
    open spec fn obeys_from_spec() -> bool {
        true
    }

    open spec fn from_spec(input: i8) -> HugValue {
        HugValue::Int8(input)
    }
}

impl From<i16> for HugValue {
    fn from(input: i16) -> (r: HugValue) {
        HugValue::Int16(input)
    }
}

impl vstd::std_specs::convert::FromSpecImpl<i16> for HugValue {
    open spec fn obeys_from_spec() -> bool {
        true
    }

    open spec fn from_spec(input: i16) -> HugValue {
        HugValue::Int16(input)
    }
}

impl From<i32> for HugValue {
    fn from(input: i32) -> (r: HugValue) {
        HugValue::Int32(input)
    }
}

impl vstd::std_specs::convert::FromSpecImpl<i32> for HugValue {
    open spec fn obeys_from_spec() -> bool {
        true
    }

    open spec fn from_spec(input: i32) -> HugValue {
        HugValue::Int32(input)
    }
}

impl From<i64> for HugValue {
    fn from(input: i64) -> (r: HugValue) {
        HugValue::Int64(input)
    }
}

impl vstd::std_specs::convert::FromSpecImpl<i64> for HugValue {
    open spec fn obeys_from_spec() -> bool {
        true
    }

    open spec fn from_spec(input: i64) -> HugValue {
        HugValue::Int64(input)
    }
}

impl From<i128> for HugValue {
    fn from(input: i128) -> (r: HugValue) {
        HugValue::Int128(input)
    }
}

impl vstd::std_specs::convert::FromSpecImpl<i128> for HugValue {
    open spec fn obeys_from_spec() -> bool {
        true
    }

    open spec fn from_spec(input: i128) -> HugValue {
        HugValue::Int128(input)
    }
}

impl From<u8> for HugValue {
    fn from(input: u8) -> (r: HugValue) {
        HugValue::UInt8(input)
    }
}

impl vstd::std_specs::convert::FromSpecImpl<u8> for HugValue {
    open spec fn obeys_from_spec() -> bool {
        true
    }

    open spec fn from_spec(input: u8) -> HugValue {
        HugValue::UInt8(input)
    }
}

impl From<u16> for HugValue {
    fn from(input: u16) -> (r: HugValue) {
        HugValue::UInt16(input)
    }
}

impl vstd::std_specs::convert::FromSpecImpl<u16> for HugValue {
    open spec fn obeys_from_spec() -> bool {
        true
    }

    open spec fn from_spec(input: u16) -> HugValue {
        HugValue::UInt16(input)
    }
}

impl From<u32> for HugValue {
    fn from(input: u32) -> (r: HugValue) {
        HugValue::UInt32(input)
    }
}

impl vstd::std_specs::convert::FromSpecImpl<u32> for HugValue {
    open spec fn obeys_from_spec() -> bool {
        true
    }

    open spec fn from_spec(input: u32) -> HugValue {
        HugValue::UInt32(input)
    }
}

impl From<u64> for HugValue {
    fn from(input: u64) -> (r: HugValue) {
        HugValue::UInt64(input)
    }
}

impl vstd::std_specs::convert::FromSpecImpl<u64> for HugValue {
    open spec fn obeys_from_spec() -> bool {
        true
    }

    open spec fn from_spec(input: u64) -> HugValue {
        HugValue::UInt64(input)
    }
}

impl From<u128> for HugValue {
    fn from(input: u128) -> (r: HugValue) {
        HugValue::UInt128(input)
    }
}

impl vstd::std_specs::convert::FromSpecImpl<u128> for HugValue {
    open spec fn obeys_from_spec() -> bool {
        true
    }

    open spec fn from_spec(input: u128) -> HugValue {
        HugValue::UInt128(input)
    }
}

impl From<String> for HugValue {
    fn from(input: String) -> (r: HugValue) {
        HugValue::String(input)
    }
}

impl vstd::std_specs::convert::FromSpecImpl<String> for HugValue {
    open spec fn obeys_from_spec() -> bool {
        true
    }

    open spec fn from_spec(input: String) -> HugValue {
        HugValue::String(input)
    }
}

impl crate::token::TokenPair {
    /// The value this literal token denotes: integer literals default to
    /// the 32-bit signed type, string literals lose their quotes.
    pub fn parse_literal(&self) -> (r: Result<HugValue, ParseError>)
        requires
            self.kind matches crate::token::TokenKind::Literal(_),
        ensures
            match self.kind {
                crate::token::TokenKind::Literal(k) => match crate::grammar::spec_parse_literal(
                    k,
                    self.text@,
                ) {
                    Ok(v) => r matches Ok(x) && x.deep_view() == v,
                    Err(e) => r == Err::<HugValue, ParseError>(e),
                },
                _ => true,
            },
    {
        match self.kind {
            crate::token::TokenKind::Literal(k) => match k {
                crate::token::LiteralKind::String => HugValue::parse_from_type(
                    TypeKind::String,
                    self.text.clone(),
                ),
                crate::token::LiteralKind::Integer => HugValue::parse_from_type(
                    TypeKind::Int32,
                    self.text.clone(),
                ),
                crate::token::LiteralKind::Float => Err(
                    ParseError::NotYetImplemented { feature: Feature::FloatLiteral },
                ),
            },
            _ => {
                proof {
                    assert(false);
                }
                vstd::pervasive::unreached()
            },
        }
    }
}

/// Fallible extraction of a native value out of a `HugValue`: succeeds
/// exactly when the active variant matches the requested type, preserving
/// the payload bit-exactly.
pub trait FromHugValue<'a>: Sized {
    /// Whether the active variant of `v` matches this native type.
    spec fn extraction_ok(v: HugValueV) -> bool;

    /// Whether `r` is exactly the payload of `v`.
    spec fn extracts(v: HugValueV, r: Self) -> bool;

    /// Extracts this native type from the value, or reports the mismatch.
    fn from_hug_value(value: &'a HugValue) -> (r: Result<Self, TypeError>)
        ensures
            match r {
                Ok(x) => Self::extraction_ok(value.deep_view()) && Self::extracts(
                    value.deep_view(),
                    x,
                ),
                Err(_) => !Self::extraction_ok(value.deep_view()),
            },
    ;
}

impl<'a> FromHugValue<'a> for i8 {
    open spec fn extraction_ok(v: HugValueV) -> bool {
        v matches HugValueV::Int8(_)
    }

    open spec fn extracts(v: HugValueV, r: i8) -> bool {
        v == HugValueV::Int8(r)
    }

    fn from_hug_value(value: &'a HugValue) -> (r: Result<i8, TypeError>) {
        match value {
            HugValue::Int8(x) => Ok(*x),
            _ => Err(TypeError),
        }
    }
}

impl<'a> FromHugValue<'a> for i16 {
    open spec fn extraction_ok(v: HugValueV) -> bool {
        v matches HugValueV::Int16(_)
    }

    open spec fn extracts(v: HugValueV, r: i16) -> bool {
        v == HugValueV::Int16(r)
    }

    fn from_hug_value(value: &'a HugValue) -> (r: Result<i16, TypeError>) {
        match value {
            HugValue::Int16(x) => Ok(*x),
            _ => Err(TypeError),
        }
    }
}

impl<'a> FromHugValue<'a> for i32 {
    open spec fn extraction_ok(v: HugValueV) -> bool {
        v matches HugValueV::Int32(_)
    }

    open spec fn extracts(v: HugValueV, r: i32) -> bool {
        v == HugValueV::Int32(r)
    }

    fn from_hug_value(value: &'a HugValue) -> (r: Result<i32, TypeError>) {
        match value {
            HugValue::Int32(x) => Ok(*x),
            _ => Err(TypeError),
        }
    }
}

impl<'a> FromHugValue<'a> for i64 {
    open spec fn extraction_ok(v: HugValueV) -> bool {
        v matches HugValueV::Int64(_)
    }

    open spec fn extracts(v: HugValueV, r: i64) -> bool {
        v == HugValueV::Int64(r)
    }

    fn from_hug_value(value: &'a HugValue) -> (r: Result<i64, TypeError>) {
        match value {
            HugValue::Int64(x) => Ok(*x),
            _ => Err(TypeError),
        }
    }
}

impl<'a> FromHugValue<'a> for i128 {
    open spec fn extraction_ok(v: HugValueV) -> bool {
        v matches HugValueV::Int128(_)
    }

    open spec fn extracts(v: HugValueV, r: i128) -> bool {
        v == HugValueV::Int128(r)
    }

    fn from_hug_value(value: &'a HugValue) -> (r: Result<i128, TypeError>) {
        match value {
            HugValue::Int128(x) => Ok(*x),
            _ => Err(TypeError),
        }
    }
}

impl<'a> FromHugValue<'a> for u8 {
    open spec fn extraction_ok(v: HugValueV) -> bool {
        v matches HugValueV::UInt8(_)
    }

    open spec fn extracts(v: HugValueV, r: u8) -> bool {
        v == HugValueV::UInt8(r)
    }

    fn from_hug_value(value: &'a HugValue) -> (r: Result<u8, TypeError>) {
        match value {
            HugValue::UInt8(x) => Ok(*x),
            _ => Err(TypeError),
        }
    }
}

impl<'a> FromHugValue<'a> for u16 {
    open spec fn extraction_ok(v: HugValueV) -> bool {
        v matches HugValueV::UInt16(_)
    }

    open spec fn extracts(v: HugValueV, r: u16) -> bool {
        v == HugValueV::UInt16(r)
    }

    fn from_hug_value(value: &'a HugValue) -> (r: Result<u16, TypeError>) {
        match value {
            HugValue::UInt16(x) => Ok(*x),
            _ => Err(TypeError),
        }
    }
}

impl<'a> FromHugValue<'a> for u32 {
    open spec fn extraction_ok(v: HugValueV) -> bool {
        v matches HugValueV::UInt32(_)
    }

    open spec fn extracts(v: HugValueV, r: u32) -> bool {
        v == HugValueV::UInt32(r)
    }

    fn from_hug_value(value: &'a HugValue) -> (r: Result<u32, TypeError>) {
        match value {
            HugValue::UInt32(x) => Ok(*x),
            _ => Err(TypeError),
        }
    }
}

impl<'a> FromHugValue<'a> for u64 {
    open spec fn extraction_ok(v: HugValueV) -> bool {
        v matches HugValueV::UInt64(_)
    }

    open spec fn extracts(v: HugValueV, r: u64) -> bool {
        v == HugValueV::UInt64(r)
    }

    fn from_hug_value(value: &'a HugValue) -> (r: Result<u64, TypeError>) {
        match value {
            HugValue::UInt64(x) => Ok(*x),
            _ => Err(TypeError),
        }
    }
}

impl<'a> FromHugValue<'a> for u128 {
    open spec fn extraction_ok(v: HugValueV) -> bool {
        v matches HugValueV::UInt128(_)
    }

    open spec fn extracts(v: HugValueV, r: u128) -> bool {
        v == HugValueV::UInt128(r)
    }

    fn from_hug_value(value: &'a HugValue) -> (r: Result<u128, TypeError>) {
        match value {
            HugValue::UInt128(x) => Ok(*x),
            _ => Err(TypeError),
        }
    }
}

impl<'a> FromHugValue<'a> for &'a str {
    open spec fn extraction_ok(v: HugValueV) -> bool {
        v matches HugValueV::String(_)
    }

    open spec fn extracts(v: HugValueV, r: &'a str) -> bool {
        v == HugValueV::String(r@)
    }

    fn from_hug_value(value: &'a HugValue) -> (r: Result<&'a str, TypeError>) {
        match value {
            HugValue::String(s) => Ok(s.as_str()),
            _ => Err(TypeError),
        }
    }
}

impl<'a> FromHugValue<'a> for String {
    open spec fn extraction_ok(v: HugValueV) -> bool {
        v matches HugValueV::String(_)
    }

    open spec fn extracts(v: HugValueV, r: String) -> bool {
        v == HugValueV::String(r@)
    }

    fn from_hug_value(value: &'a HugValue) -> (r: Result<String, TypeError>) {
        match value {
            HugValue::String(s) => Ok(s.clone()),
            _ => Err(TypeError),
        }
    }
}

impl<'a> FromHugValue<'a> for &'a HugValue {
    open spec fn extraction_ok(v: HugValueV) -> bool {
        true
    }

    open spec fn extracts(v: HugValueV, r: &'a HugValue) -> bool {
        r.deep_view() == v
    }

    fn from_hug_value(value: &'a HugValue) -> (r: Result<&'a HugValue, TypeError>) {
        Ok(value)
    }
}

} // verus!
