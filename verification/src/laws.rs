//! The library-wide laws, stated and proved over the same spec functions
//! the executable contracts use.

use vstd::prelude::*;

use crate::ast::HugTreeV;
use crate::error::ParseError;
use crate::grammar::spec_parse;
use crate::num::dec_int_of;
use crate::num::dec_is_negative;
use crate::num::int_chars;
use crate::token::TokenPairV;
use crate::token::TypeKind;
use crate::value::HugValueV;
use crate::value::spec_parse_from_type;
use crate::value::value_text;

verus! {

/// Whether `t` is one of the integer type tags.
pub open spec fn is_int_type(t: TypeKind) -> bool {
    t matches TypeKind::Int8 || t matches TypeKind::Int16 || t matches TypeKind::Int32
        || t matches TypeKind::Int64 || t matches TypeKind::Int128 || t matches TypeKind::UInt8
        || t matches TypeKind::UInt16 || t matches TypeKind::UInt32 || t matches TypeKind::UInt64
        || t matches TypeKind::UInt128
}

/// Whether `t` is an unsigned integer type tag.
pub open spec fn is_uint_type(t: TypeKind) -> bool {
    t matches TypeKind::UInt8 || t matches TypeKind::UInt16 || t matches TypeKind::UInt32
        || t matches TypeKind::UInt64 || t matches TypeKind::UInt128
}

/// The smallest value an integer type tag can hold.
pub open spec fn int_type_min(t: TypeKind) -> int {
    match t {
        TypeKind::Int8 => i8::MIN as int,
        TypeKind::Int16 => i16::MIN as int,
        TypeKind::Int32 => i32::MIN as int,
        TypeKind::Int64 => i64::MIN as int,
        TypeKind::Int128 => i128::MIN as int,
        _ => 0,
    }
}

/// The largest value an integer type tag can hold.
pub open spec fn int_type_max(t: TypeKind) -> int {
    match t {
        TypeKind::Int8 => i8::MAX as int,
        TypeKind::Int16 => i16::MAX as int,
        TypeKind::Int32 => i32::MAX as int,
        TypeKind::Int64 => i64::MAX as int,
        TypeKind::Int128 => i128::MAX as int,
        TypeKind::UInt8 => u8::MAX as int,
        TypeKind::UInt16 => u16::MAX as int,
        TypeKind::UInt32 => u32::MAX as int,
        TypeKind::UInt64 => u64::MAX as int,
        TypeKind::UInt128 => u128::MAX as int,
        _ => 0,
    }
}

/// Typed parsing succeeds exactly on decimal text that denotes a value in
/// the tag's range — with no minus sign at all for unsigned tags — and
/// never clamps or truncates: the parsed payload is the denoted value.
pub proof fn lemma_numeric_acceptance(t: TypeKind, raw: Seq<char>)
    requires
        is_int_type(t),
    ensures
        spec_parse_from_type(t, raw) is Ok <==> (dec_int_of(raw) matches Some(n) && int_type_min(t)
            <= n <= int_type_max(t) && (is_uint_type(t) ==> !dec_is_negative(raw))),
        spec_parse_from_type(t, raw) is Err ==> spec_parse_from_type(t, raw) == Err::<
            HugValueV,
            ParseError,
        >(ParseError::InvalidLiteral { declared: t }),
{
}

/// For every integer tag and all decimal text in the tag's range, the
/// parsed value renders back to the canonical decimal form of the text.
pub proof fn lemma_numeric_round_trip(t: TypeKind, raw: Seq<char>, v: HugValueV)
    requires
        is_int_type(t),
        spec_parse_from_type(t, raw) == Ok::<HugValueV, ParseError>(v),
    ensures
        dec_int_of(raw) matches Some(n) && value_text(v) == int_chars(n),
{
    let n = dec_int_of(raw).unwrap();
    match t {
        TypeKind::Int8 => {
            assert(v == HugValueV::Int8(n as i8));
        },
        TypeKind::Int16 => {
            assert(v == HugValueV::Int16(n as i16));
        },
        TypeKind::Int32 => {
            assert(v == HugValueV::Int32(n as i32));
        },
        TypeKind::Int64 => {
            assert(v == HugValueV::Int64(n as i64));
        },
        TypeKind::Int128 => {
            assert(v == HugValueV::Int128(n as i128));
        },
        TypeKind::UInt8 => {
            assert(v == HugValueV::UInt8(n as u8));
        },
        TypeKind::UInt16 => {
            assert(v == HugValueV::UInt16(n as u16));
        },
        TypeKind::UInt32 => {
            assert(v == HugValueV::UInt32(n as u32));
        },
        TypeKind::UInt64 => {
            assert(v == HugValueV::UInt64(n as u64));
        },
        TypeKind::UInt128 => {
            assert(v == HugValueV::UInt128(n as u128));
        },
        _ => {},
    }
}

/// Parsing is a pure function of the token sequence: any two results that
/// the parser's contract admits for the same tokens are equal, so two
/// parses of an identical sequence produce structurally equal trees.
pub proof fn lemma_parse_pure(
    toks: Seq<TokenPairV>,
    r1: Result<HugTreeV, ParseError>,
    r2: Result<HugTreeV, ParseError>,
)
    requires
        r1 == spec_parse(toks),
        r2 == spec_parse(toks),
    ensures
        r1 == r2,
{
}

} // verus!
