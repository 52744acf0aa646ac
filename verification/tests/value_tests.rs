use hug_ast::error::Feature;
use hug_ast::error::ParseError;
use hug_ast::token::Ident;
use hug_ast::token::TypeKind;
use hug_ast::value::FromHugValue;
use hug_ast::value::TypeError;
use hug_ast::value::TypedDefinition;
use hug_ast::value::HugValue;

fn parse(t: TypeKind, s: &str) -> Result<HugValue, ParseError> {
    HugValue::parse_from_type(t, s.to_string())
}

#[test]
fn parses_int32_in_range() {
    assert_eq!(parse(TypeKind::Int32, "42"), Ok(HugValue::Int32(42)));
    assert_eq!(parse(TypeKind::Int32, "-2147483648"), Ok(HugValue::Int32(i32::MIN)));
    assert_eq!(parse(TypeKind::Int32, "+7"), Ok(HugValue::Int32(7)));
}

#[test]
fn parses_every_integer_width() {
    assert_eq!(parse(TypeKind::Int8, "-128"), Ok(HugValue::Int8(-128)));
    assert_eq!(parse(TypeKind::Int16, "32767"), Ok(HugValue::Int16(32767)));
    assert_eq!(parse(TypeKind::Int64, "-9223372036854775808"), Ok(HugValue::Int64(i64::MIN)));
    assert_eq!(
        parse(TypeKind::Int128, "-170141183460469231731687303715884105728"),
        Ok(HugValue::Int128(i128::MIN))
    );
    assert_eq!(parse(TypeKind::UInt8, "255"), Ok(HugValue::UInt8(255)));
    assert_eq!(parse(TypeKind::UInt16, "0"), Ok(HugValue::UInt16(0)));
    assert_eq!(parse(TypeKind::UInt32, "4294967295"), Ok(HugValue::UInt32(u32::MAX)));
    assert_eq!(parse(TypeKind::UInt64, "18446744073709551615"), Ok(HugValue::UInt64(u64::MAX)));
    assert_eq!(
        parse(TypeKind::UInt128, "340282366920938463463374607431768211455"),
        Ok(HugValue::UInt128(u128::MAX))
    );
}

#[test]
fn leading_zeros_parse_and_render_canonically() {
    let v = parse(TypeKind::UInt8, "007").unwrap();
    assert_eq!(v, HugValue::UInt8(7));
    assert_eq!(v.to_string(), "7");
}

#[test]
fn numeric_round_trip_reproduces_canonical_decimal() {
    for s in ["0", "42", "-1", "127", "-128", "2147483647"] {
        let v = parse(TypeKind::Int32, s);
        if let Ok(v) = v {
            assert_eq!(v.to_string(), s.to_string());
        } else {
            panic!("expected {s} to parse");
        }
    }
    let v = parse(TypeKind::UInt128, "340282366920938463463374607431768211455").unwrap();
    assert_eq!(v.to_string(), "340282366920938463463374607431768211455");
}

#[test]
fn out_of_range_text_is_rejected() {
    assert_eq!(
        parse(TypeKind::Int8, "128"),
        Err(ParseError::InvalidLiteral { declared: TypeKind::Int8 })
    );
    assert_eq!(
        parse(TypeKind::Int8, "-129"),
        Err(ParseError::InvalidLiteral { declared: TypeKind::Int8 })
    );
    assert_eq!(
        parse(TypeKind::UInt8, "256"),
        Err(ParseError::InvalidLiteral { declared: TypeKind::UInt8 })
    );
    assert_eq!(
        parse(TypeKind::UInt32, "-1"),
        Err(ParseError::InvalidLiteral { declared: TypeKind::UInt32 })
    );
    assert_eq!(
        parse(TypeKind::UInt64, "-0"),
        Err(ParseError::InvalidLiteral { declared: TypeKind::UInt64 })
    );
}

#[test]
fn non_numeric_text_is_rejected() {
    for s in ["", "abc", "1x", "--1", "+", "-", "1 2", "١٢٣"] {
        assert_eq!(
            parse(TypeKind::Int64, s),
            Err(ParseError::InvalidLiteral { declared: TypeKind::Int64 }),
            "text {s:?}"
        );
    }
}

#[test]
fn string_literal_loses_its_quotes() {
    assert_eq!(
        parse(TypeKind::String, "\"hello\""),
        Ok(HugValue::String("hello".to_string()))
    );
    assert_eq!(parse(TypeKind::String, "\"\""), Ok(HugValue::String(String::new())));
}

#[test]
fn too_short_string_literal_is_rejected() {
    assert_eq!(
        parse(TypeKind::String, "x"),
        Err(ParseError::InvalidLiteral { declared: TypeKind::String })
    );
}

#[test]
fn float_and_user_tags_are_not_implemented() {
    assert_eq!(
        parse(TypeKind::Float32, "1.5"),
        Err(ParseError::NotYetImplemented { feature: Feature::FloatLiteral })
    );
    assert_eq!(
        parse(TypeKind::Float64, "1.5"),
        Err(ParseError::NotYetImplemented { feature: Feature::FloatLiteral })
    );
    assert_eq!(
        parse(TypeKind::Other(Ident(3)), "1"),
        Err(ParseError::NotYetImplemented { feature: Feature::UserDefinedType })
    );
}

#[test]
fn to_string_is_total_over_the_lattice() {
    assert_eq!(HugValue::Int8(-128).to_string(), "-128");
    assert_eq!(HugValue::Int128(i128::MIN).to_string(), "-170141183460469231731687303715884105728");
    assert_eq!(HugValue::UInt8(0).to_string(), "0");
    assert_eq!(HugValue::String("verbatim text".to_string()).to_string(), "verbatim text");
    assert_eq!(HugValue::Function(0x2a).to_string(), "<Function [0x0000002a]>");
    assert_eq!(HugValue::Function(0x123456789).to_string(), "<Function [0x123456789]>");
    assert_eq!(HugValue::ExternalFunction(0x2a).to_string(), "<ExternalFunction [0x2a]>");
    assert_eq!(HugValue::Float32(0x3fc00000).to_string(), "<Float32 [0x3fc00000]>");
    assert_eq!(
        HugValue::Float64(0x3ff8000000000000).to_string(),
        "<Float64 [0x3ff8000000000000]>"
    );
}

#[test]
fn extraction_succeeds_on_the_matching_variant() {
    assert_eq!(i32::from_hug_value(&HugValue::Int32(5)), Ok(5));
    assert_eq!(u128::from_hug_value(&HugValue::UInt128(7)), Ok(7));
    assert_eq!(
        String::from_hug_value(&HugValue::String("s".to_string())),
        Ok("s".to_string())
    );
    assert_eq!(<&str>::from_hug_value(&HugValue::String("s".to_string())), Ok("s"));
    let v = HugValue::Int8(1);
    assert_eq!(<&HugValue>::from_hug_value(&v), Ok(&v));
}

#[test]
fn conversion_into_the_lattice_keeps_the_payload() {
    assert_eq!(HugValue::from(-5i8), HugValue::Int8(-5));
    assert_eq!(HugValue::from(7i32), HugValue::Int32(7));
    assert_eq!(HugValue::from(u128::MAX), HugValue::UInt128(u128::MAX));
    assert_eq!(HugValue::from("t".to_string()), HugValue::String("t".to_string()));
}

#[test]
fn extraction_reports_a_type_mismatch() {
    assert_eq!(i32::from_hug_value(&HugValue::Int64(5)), Err(TypeError));
    assert_eq!(u8::from_hug_value(&HugValue::Int8(5)), Err(TypeError));
    assert_eq!(String::from_hug_value(&HugValue::UInt8(5)), Err(TypeError));
}
