use hug_ast::ast::Expression;
use hug_ast::ast::HugTree;
use hug_ast::ast::HugTreeEntry;
use hug_ast::error::Feature;
use hug_ast::error::ParseError;
use hug_ast::parser::HugTreeParser;
use hug_ast::state::HugAnnotationArg;
use hug_ast::state::HugTreeAnnotationState;
use hug_ast::token::AnnotationKind;
use hug_ast::token::Ident;
use hug_ast::token::KeywordKind;
use hug_ast::token::LiteralKind;
use hug_ast::token::TokenKind;
use hug_ast::token::TokenPair;
use hug_ast::value::HugValue;

fn tok(kind: TokenKind, text: &str) -> TokenPair {
    TokenPair { kind, text: text.to_string() }
}

fn bare(kind: TokenKind) -> TokenPair {
    tok(kind, "")
}

fn parse(tokens: Vec<TokenPair>) -> Result<HugTree, ParseError> {
    HugTreeParser::new(tokens).parse()
}

#[test]
fn empty_argument_list_consumes_exactly_the_parentheses() {
    let mut p = HugTreeParser::new(vec![
        bare(TokenKind::OpenParenthesis),
        bare(TokenKind::CloseParenthesis),
        bare(TokenKind::OpenBrace),
    ]);
    let args = p.parse_argument_list().unwrap();
    assert!(args.is_empty());
    assert_eq!(p.pos, 2);
}

#[test]
fn function_without_arguments_registers_in_the_scope() {
    let tree = parse(vec![
        bare(TokenKind::Keyword(KeywordKind::Fn)),
        tok(TokenKind::Identifier(Ident(10)), "f"),
        bare(TokenKind::OpenParenthesis),
        bare(TokenKind::CloseParenthesis),
        bare(TokenKind::OpenBrace),
        bare(TokenKind::CloseBrace),
    ])
    .unwrap();
    assert_eq!(tree.root.members.len(), 1);
    let member = &tree.root.members[0];
    assert_eq!(member.value, HugValue::Function(0));
    assert_eq!(
        member.entries,
        vec![HugTreeEntry::FunctionDefinition { ident: Ident(0), arguments: vec![] }]
    );
}

#[test]
fn default_argument_keeps_its_constant_value() {
    let tree = parse(vec![
        bare(TokenKind::Keyword(KeywordKind::Fn)),
        tok(TokenKind::Identifier(Ident(10)), "add"),
        bare(TokenKind::OpenParenthesis),
        tok(TokenKind::Identifier(Ident(11)), "a"),
        bare(TokenKind::Comma),
        tok(TokenKind::Identifier(Ident(12)), "b"),
        bare(TokenKind::Assign),
        tok(TokenKind::Literal(LiteralKind::Integer), "3"),
        bare(TokenKind::CloseParenthesis),
        bare(TokenKind::OpenBrace),
        bare(TokenKind::CloseBrace),
    ])
    .unwrap();
    let member = &tree.root.members[0];
    match &member.entries[0] {
        HugTreeEntry::FunctionDefinition { arguments, .. } => {
            assert_eq!(arguments.len(), 2);
            assert_eq!(arguments[0].ident, Ident(11));
            assert_eq!(arguments[0].default_value, None);
            assert_eq!(arguments[1].ident, Ident(12));
            assert_eq!(arguments[1].default_value, Some(HugValue::Int32(3)));
        },
        other => panic!("expected a function definition, got {other:?}"),
    }
}

#[test]
fn non_constant_default_argument_is_fatal() {
    let r = parse(vec![
        bare(TokenKind::Keyword(KeywordKind::Fn)),
        tok(TokenKind::Identifier(Ident(10)), "add"),
        bare(TokenKind::OpenParenthesis),
        tok(TokenKind::Identifier(Ident(12)), "b"),
        bare(TokenKind::Assign),
        tok(TokenKind::Identifier(Ident(11)), "a"),
        bare(TokenKind::CloseParenthesis),
        bare(TokenKind::OpenBrace),
        bare(TokenKind::CloseBrace),
    ]);
    assert_eq!(r, Err(ParseError::NonConstantDefault { at: 5 }));
}

#[test]
fn use_path_keeps_segment_order() {
    let tree = parse(vec![
        bare(TokenKind::Keyword(KeywordKind::Use)),
        tok(TokenKind::Identifier(Ident(1)), "foo"),
        bare(TokenKind::Dot),
        tok(TokenKind::Identifier(Ident(2)), "bar"),
        bare(TokenKind::Dot),
        tok(TokenKind::Identifier(Ident(3)), "baz"),
    ])
    .unwrap();
    assert_eq!(
        tree.entries,
        vec![HugTreeEntry::Import { path: vec![Ident(1), Ident(2), Ident(3)] }]
    );
}

#[test]
fn extern_annotation_qualifies_the_module_declaration() {
    let tree = parse(vec![
        bare(TokenKind::Annotation(AnnotationKind::Extern)),
        bare(TokenKind::OpenParenthesis),
        tok(TokenKind::Identifier(Ident(20)), "location"),
        bare(TokenKind::Assign),
        tok(TokenKind::Literal(LiteralKind::String), "\"./native.so\""),
        bare(TokenKind::CloseParenthesis),
        bare(TokenKind::Keyword(KeywordKind::Module)),
        tok(TokenKind::Identifier(Ident(21)), "native"),
    ])
    .unwrap();
    assert_eq!(
        tree.entries,
        vec![HugTreeEntry::ExternalModuleDefinition {
            location: "./native.so".to_string(),
            module: Ident(21),
        }]
    );
}

#[test]
fn module_without_extern_annotation_is_not_implemented() {
    let r = parse(vec![
        bare(TokenKind::Keyword(KeywordKind::Module)),
        tok(TokenKind::Identifier(Ident(21)), "native"),
    ]);
    assert_eq!(r, Err(ParseError::NotYetImplemented { feature: Feature::NonExternModule }));
}

#[test]
fn extern_without_location_qualifies_a_type_but_not_a_module() {
    let tree = parse(vec![
        bare(TokenKind::Annotation(AnnotationKind::Extern)),
        bare(TokenKind::Keyword(KeywordKind::Type)),
        tok(TokenKind::Identifier(Ident(30)), "Thing"),
    ])
    .unwrap();
    assert_eq!(
        tree.entries,
        vec![HugTreeEntry::ExternalTypeDefinition { type_ident: Ident(30) }]
    );

    let r = parse(vec![
        bare(TokenKind::Annotation(AnnotationKind::Extern)),
        bare(TokenKind::Keyword(KeywordKind::Module)),
        tok(TokenKind::Identifier(Ident(21)), "native"),
    ]);
    assert_eq!(r, Err(ParseError::NotYetImplemented { feature: Feature::NonExternModule }));
}

#[test]
fn type_without_extern_annotation_is_not_implemented() {
    let r = parse(vec![
        bare(TokenKind::Keyword(KeywordKind::Type)),
        tok(TokenKind::Identifier(Ident(30)), "Thing"),
    ]);
    assert_eq!(r, Err(ParseError::NotYetImplemented { feature: Feature::NonExternType }));
}

#[test]
fn let_statement_binds_a_literal() {
    let tree = parse(vec![
        bare(TokenKind::Keyword(KeywordKind::Let)),
        tok(TokenKind::Identifier(Ident(7)), "x"),
        bare(TokenKind::Assign),
        tok(TokenKind::Literal(LiteralKind::Integer), "42"),
    ])
    .unwrap();
    assert_eq!(
        tree.entries,
        vec![HugTreeEntry::VariableDefinition {
            variable: Ident(7),
            value: Expression::Literal(HugValue::Int32(42)),
        }]
    );
}

#[test]
fn parsing_is_a_pure_function_of_the_tokens() {
    let toks = || {
        vec![
            bare(TokenKind::Keyword(KeywordKind::Let)),
            tok(TokenKind::Identifier(Ident(7)), "x"),
            bare(TokenKind::Assign),
            tok(TokenKind::Literal(LiteralKind::Integer), "42"),
            bare(TokenKind::Keyword(KeywordKind::Use)),
            tok(TokenKind::Identifier(Ident(1)), "foo"),
        ]
    };
    let t1 = parse(toks());
    let t2 = parse(toks());
    assert_eq!(t1, t2);
}

#[test]
fn call_expression_keeps_argument_order() {
    let tree = parse(vec![
        tok(TokenKind::Identifier(Ident(5)), "f"),
        bare(TokenKind::OpenParenthesis),
        tok(TokenKind::Identifier(Ident(6)), "a"),
        bare(TokenKind::Comma),
        tok(TokenKind::Literal(LiteralKind::Integer), "9"),
        bare(TokenKind::CloseParenthesis),
    ])
    .unwrap();
    assert_eq!(
        tree.entries,
        vec![HugTreeEntry::Expression(Expression::Call {
            function: Ident(5),
            args: vec![
                Expression::Variable(Ident(6)),
                Expression::Literal(HugValue::Int32(9)),
            ],
        })]
    );
}

#[test]
fn trailing_comma_in_a_call_is_a_syntax_error() {
    let r = parse(vec![
        tok(TokenKind::Identifier(Ident(5)), "f"),
        bare(TokenKind::OpenParenthesis),
        tok(TokenKind::Identifier(Ident(6)), "a"),
        bare(TokenKind::Comma),
        bare(TokenKind::CloseParenthesis),
    ]);
    assert_eq!(r, Err(ParseError::SyntaxError { at: 4 }));
}

#[test]
fn comments_are_skipped() {
    let tree = parse(vec![
        tok(TokenKind::LineComment, "// nothing"),
        bare(TokenKind::Keyword(KeywordKind::Use)),
        tok(TokenKind::Identifier(Ident(1)), "foo"),
        tok(TokenKind::BlockComment, "/* nothing */"),
    ])
    .unwrap();
    assert_eq!(tree.entries, vec![HugTreeEntry::Import { path: vec![Ident(1)] }]);
}

#[test]
fn field_access_is_not_implemented() {
    let r = parse(vec![
        tok(TokenKind::Identifier(Ident(5)), "x"),
        bare(TokenKind::Dot),
        tok(TokenKind::Identifier(Ident(6)), "y"),
    ]);
    assert_eq!(r, Err(ParseError::NotYetImplemented { feature: Feature::FieldAccess }));
}

#[test]
fn reassignment_is_not_implemented() {
    let r = parse(vec![
        tok(TokenKind::Identifier(Ident(5)), "x"),
        bare(TokenKind::Assign),
        tok(TokenKind::Literal(LiteralKind::Integer), "1"),
    ]);
    assert_eq!(r, Err(ParseError::NotYetImplemented { feature: Feature::Reassignment }));
}

#[test]
fn float_literal_is_not_implemented() {
    let r = parse(vec![
        bare(TokenKind::Keyword(KeywordKind::Let)),
        tok(TokenKind::Identifier(Ident(7)), "x"),
        bare(TokenKind::Assign),
        tok(TokenKind::Literal(LiteralKind::Float), "1.5"),
    ]);
    assert_eq!(r, Err(ParseError::NotYetImplemented { feature: Feature::FloatLiteral }));
}

#[test]
fn unknown_token_is_fatal() {
    let r = parse(vec![tok(TokenKind::Unknown, "?!")]);
    assert_eq!(r, Err(ParseError::UnknownToken { at: 0 }));
}

#[test]
fn stray_token_cannot_start_a_statement() {
    let r = parse(vec![bare(TokenKind::CloseBrace)]);
    assert_eq!(r, Err(ParseError::SyntaxError { at: 0 }));
}

#[test]
fn other_keywords_are_not_handled() {
    let r = parse(vec![bare(TokenKind::Keyword(KeywordKind::Enum))]);
    assert_eq!(r, Err(ParseError::SyntaxError { at: 0 }));
}

#[test]
fn variable_definition_reports_unexpected_tokens() {
    let r = parse(vec![
        bare(TokenKind::Keyword(KeywordKind::Let)),
        tok(TokenKind::Identifier(Ident(7)), "x"),
        tok(TokenKind::Literal(LiteralKind::Integer), "42"),
    ]);
    assert_eq!(r, Err(ParseError::UnexpectedToken { at: 2 }));
}

#[test]
fn declared_variable_type_is_consumed() {
    let tree = parse(vec![
        bare(TokenKind::Keyword(KeywordKind::Let)),
        tok(TokenKind::Identifier(Ident(7)), "x"),
        bare(TokenKind::Colon),
        bare(TokenKind::Type(hug_ast::token::TypeKind::Int32)),
        bare(TokenKind::Assign),
        tok(TokenKind::Literal(LiteralKind::Integer), "1"),
    ])
    .unwrap();
    assert_eq!(
        tree.entries,
        vec![HugTreeEntry::VariableDefinition {
            variable: Ident(7),
            value: Expression::Literal(HugValue::Int32(1)),
        }]
    );
}

#[test]
fn out_of_range_literal_fails_the_parse() {
    let r = parse(vec![
        bare(TokenKind::Keyword(KeywordKind::Let)),
        tok(TokenKind::Identifier(Ident(7)), "x"),
        bare(TokenKind::Assign),
        tok(TokenKind::Literal(LiteralKind::Integer), "99999999999999999999"),
    ]);
    assert_eq!(
        r,
        Err(ParseError::InvalidLiteral { declared: hug_ast::token::TypeKind::Int32 })
    );
}

#[test]
fn missing_extern_location_key_is_fatal() {
    let r = parse(vec![
        bare(TokenKind::Annotation(AnnotationKind::Extern)),
        bare(TokenKind::OpenParenthesis),
        tok(TokenKind::Identifier(Ident(20)), "path"),
        bare(TokenKind::Assign),
        tok(TokenKind::Literal(LiteralKind::String), "\"x\""),
        bare(TokenKind::CloseParenthesis),
        bare(TokenKind::Keyword(KeywordKind::Module)),
        tok(TokenKind::Identifier(Ident(21)), "native"),
    ]);
    assert_eq!(r, Err(ParseError::MissingExternLocation));
}

#[test]
fn duplicate_custom_annotation_is_fatal() {
    let r = parse(vec![
        bare(TokenKind::Annotation(AnnotationKind::Other(Ident(40)))),
        bare(TokenKind::Annotation(AnnotationKind::Other(Ident(40)))),
    ]);
    assert_eq!(r, Err(ParseError::DuplicateAnnotation { key: Ident(40) }));
}

#[test]
fn annotation_arguments_record_kind_and_stripped_text() {
    let mut state = HugTreeAnnotationState::new();
    let args = vec![HugAnnotationArg {
        name: "mode".to_string(),
        kind: LiteralKind::String,
        value: "fast".to_string(),
    }];
    state.push_custom(Ident(40), args.clone()).unwrap();
    assert_eq!(state.get_custom(Ident(40)), Some(&args));
    assert_eq!(state.get_custom(Ident(41)), None);
    assert_eq!(
        state.push_custom(Ident(40), vec![]),
        Err(ParseError::DuplicateAnnotation { key: Ident(40) })
    );
    state.reset();
    assert_eq!(state.get_custom(Ident(40)), None);
    assert_eq!(state.get_extern(), None);
}

#[test]
fn get_extern_needs_a_nonempty_location() {
    let mut state = HugTreeAnnotationState::new();
    assert_eq!(state.get_extern(), None);
    state.set_extern(String::new());
    assert_eq!(state.get_extern(), None);
    assert!(state.is_extern);
    state.set_extern("./lib.so".to_string());
    assert_eq!(state.get_extern(), Some("./lib.so".to_string()));
}

#[test]
fn scope_entries_accumulate_across_value_updates() {
    let mut scope = hug_ast::ast::HugScope::new();
    let a = scope.ident(Ident(100));
    let b = scope.ident(Ident(200));
    let again = scope.ident(Ident(100));
    assert_eq!(a, again);
    assert_ne!(a, b);
    scope.set(a, HugValue::Int8(1));
    scope.push_entry(a, HugTreeEntry::Import { path: vec![Ident(1)] });
    scope.set(a, HugValue::Int8(2));
    scope.push_entry(a, HugTreeEntry::Import { path: vec![Ident(2)] });
    assert_eq!(scope.members.len(), 1);
    assert_eq!(scope.members[0].value, HugValue::Int8(2));
    assert_eq!(scope.members[0].entries.len(), 2);
}

#[test]
fn nested_function_body_parses_into_its_own_scope() {
    let tree = parse(vec![
        bare(TokenKind::Keyword(KeywordKind::Fn)),
        tok(TokenKind::Identifier(Ident(10)), "f"),
        bare(TokenKind::OpenParenthesis),
        bare(TokenKind::CloseParenthesis),
        bare(TokenKind::Arrow),
        bare(TokenKind::Type(hug_ast::token::TypeKind::Int32)),
        bare(TokenKind::OpenBrace),
        bare(TokenKind::Keyword(KeywordKind::Let)),
        tok(TokenKind::Identifier(Ident(7)), "x"),
        bare(TokenKind::Assign),
        tok(TokenKind::Literal(LiteralKind::Integer), "1"),
        bare(TokenKind::CloseBrace),
    ])
    .unwrap();
    // the body's variable definition lands in the tree's entry list
    assert_eq!(tree.entries.len(), 1);
    assert_eq!(tree.root.members.len(), 1);
}

#[test]
fn unclosed_scope_is_fatal() {
    let r = parse(vec![
        bare(TokenKind::Keyword(KeywordKind::Fn)),
        tok(TokenKind::Identifier(Ident(10)), "f"),
        bare(TokenKind::OpenParenthesis),
        bare(TokenKind::CloseParenthesis),
        bare(TokenKind::OpenBrace),
    ]);
    assert_eq!(r, Err(ParseError::SyntaxError { at: 5 }));
}

#[test]
fn expected_kind_errors_carry_the_position() {
    // a function whose body lacks its opening brace
    let r = parse(vec![
        bare(TokenKind::Keyword(KeywordKind::Fn)),
        tok(TokenKind::Identifier(Ident(10)), "f"),
        bare(TokenKind::OpenParenthesis),
        bare(TokenKind::CloseParenthesis),
        tok(TokenKind::Identifier(Ident(11)), "x"),
    ]);
    assert_eq!(
        r,
        Err(ParseError::ExpectedKind { expected: TokenKind::OpenBrace, at: 4 })
    );
}

#[test]
fn expected_identifier_and_literal_positions() {
    let r = parse(vec![
        bare(TokenKind::Keyword(KeywordKind::Fn)),
        tok(TokenKind::Literal(LiteralKind::Integer), "1"),
    ]);
    assert_eq!(r, Err(ParseError::ExpectedIdentifier { at: 1 }));

    let r2 = parse(vec![
        bare(TokenKind::Annotation(AnnotationKind::Other(Ident(40)))),
        bare(TokenKind::OpenParenthesis),
        tok(TokenKind::Identifier(Ident(20)), "k"),
        bare(TokenKind::Assign),
        tok(TokenKind::Identifier(Ident(21)), "v"),
    ]);
    assert_eq!(r2, Err(ParseError::ExpectedLiteral { at: 4 }));
}

#[test]
fn invalid_expression_reports_the_offending_position() {
    let r = parse(vec![
        bare(TokenKind::Keyword(KeywordKind::Let)),
        tok(TokenKind::Identifier(Ident(7)), "x"),
        bare(TokenKind::Assign),
        bare(TokenKind::Comma),
    ]);
    assert_eq!(r, Err(ParseError::InvalidExpression { at: 3 }));
}

#[test]
fn return_appends_a_bare_expression_entry() {
    let tree = parse(vec![
        bare(TokenKind::Keyword(KeywordKind::Return)),
        tok(TokenKind::Literal(LiteralKind::Integer), "5"),
    ])
    .unwrap();
    assert_eq!(
        tree.entries,
        vec![HugTreeEntry::Expression(Expression::Literal(HugValue::Int32(5)))]
    );
}

#[test]
fn expression_helpers_see_only_literals_as_constant() {
    let lit = Expression::Literal(HugValue::Int32(3));
    let var = Expression::Variable(Ident(1));
    assert!(lit.is_constant());
    assert!(!var.is_constant());
    assert_eq!(lit.get_constant_value(), Some(HugValue::Int32(3)));
    assert_eq!(var.get_constant_value(), None);
}
