//! The grammar, as one functional specification: each production maps the
//! token sequence, a position, and the parser's logical state to the next
//! position, the new state and the parsed result — or the exact error.
//! The executable parser is proved to return precisely what these
//! functions say, which makes parsing a pure function of the token
//! sequence.

use vstd::prelude::*;

use crate::ast::ExpressionV;
use crate::ast::HugFunctionArgumentV;
use crate::ast::HugScopeV;
use crate::ast::HugTreeEntryV;
use crate::ast::HugTreeV;
use crate::ast::empty_scope_v;
use crate::ast::spec_intern;
use crate::ast::spec_push_entry;
use crate::ast::spec_set;
use crate::error::Feature;
use crate::error::ParseError;
use crate::state::HugAnnotationArgV;
use crate::state::HugTreeAnnotationStateV;
use crate::state::empty_annotation_state_v;
use crate::state::has_custom;
use crate::token::AnnotationKind;
use crate::token::KeywordKind;
use crate::token::LiteralKind;
use crate::token::TokenKind;
use crate::token::TokenPairV;
use crate::token::TypeKind;
use crate::token::tok_at;
use crate::value::HugValueV;
use crate::value::spec_parse_from_type;

verus! {

/// The tokens left from position `i` on.
pub open spec fn rem(toks: Seq<TokenPairV>, i: int) -> int {
    if i <= toks.len() {
        toks.len() - i
    } else {
        0
    }
}

/// The entries gathered so far and the pending annotation state: what the
/// grammar mutates besides the scopes it fills.
pub struct ParseStV {
    pub entries: Seq<HugTreeEntryV>,
    pub ann: HugTreeAnnotationStateV,
}

/// The value a literal token denotes: integer literals default to the
/// 32-bit signed type, string literals lose their quotes, float literals
/// stay outside the verified core.
pub open spec fn spec_parse_literal(k: LiteralKind, text: Seq<char>) -> Result<HugValueV, ParseError> {
    match k {
        LiteralKind::String => spec_parse_from_type(TypeKind::String, text),
        LiteralKind::Integer => spec_parse_from_type(TypeKind::Int32, text),
        LiteralKind::Float => Err(ParseError::NotYetImplemented { feature: Feature::FloatLiteral }),
    }
}

/// One expression: a literal, a variable reference, or a call.
pub open spec fn spec_expression(toks: Seq<TokenPairV>, i: int) -> Result<
    (int, ExpressionV),
    ParseError,
>
    decreases rem(toks, i), 0int,
{
    match tok_at(toks, i).kind {
        TokenKind::Literal(k) => match spec_parse_literal(k, tok_at(toks, i).text) {
            Ok(v) => Ok((i + 1, ExpressionV::Literal(v))),
            Err(e) => Err(e),
        },
        TokenKind::Identifier(id) => match tok_at(toks, i + 1).kind {
            TokenKind::Dot => Err(ParseError::NotYetImplemented { feature: Feature::FieldAccess }),
            TokenKind::OpenParenthesis => {
                if i + 2 <= toks.len() {
                    match spec_call_args(toks, i + 2) {
                        Ok((j, args)) => Ok((j, ExpressionV::Call { function: id, args })),
                        Err(e) => Err(e),
                    }
                } else {
                    // unreachable: a real parenthesis token sits before i + 2
                    Err(ParseError::SyntaxError { at: i as usize })
                }
            },
            _ => Ok((i + 1, ExpressionV::Variable(id))),
        },
        _ => Err(ParseError::InvalidExpression { at: i as usize }),
    }
}

/// The comma-separated argument expressions of a call, up to and including
/// the closing parenthesis.
pub open spec fn spec_call_args(toks: Seq<TokenPairV>, i: int) -> Result<
    (int, Seq<ExpressionV>),
    ParseError,
>
    decreases rem(toks, i), 1int,
{
    if tok_at(toks, i).kind == TokenKind::CloseParenthesis {
        Ok((i + 1, Seq::empty()))
    } else {
        match spec_expression(toks, i) {
            Ok((j, e)) => {
                if i < j <= toks.len() {
                    match tok_at(toks, j).kind {
                        TokenKind::Comma => {
                            if tok_at(toks, j + 1).kind == TokenKind::CloseParenthesis {
                                // a trailing comma does not separate arguments
                                Err(ParseError::SyntaxError { at: (j + 1) as usize })
                            } else {
                                match spec_call_args(toks, j + 1) {
                                    Ok((k, rest)) => Ok((k, seq![e] + rest)),
                                    Err(err) => Err(err),
                                }
                            }
                        },
                        TokenKind::CloseParenthesis => Ok((j + 1, seq![e])),
                        _ => Err(ParseError::SyntaxError { at: j as usize }),
                    }
                } else {
                    // unreachable: an expression consumes at least one token
                    Err(ParseError::SyntaxError { at: i as usize })
                }
            },
            Err(e) => Err(e),
        }
    }
}

/// One or more declared function arguments, up to and including the
/// closing parenthesis.
pub open spec fn spec_argument_items(toks: Seq<TokenPairV>, i: int) -> Result<
    (int, Seq<HugFunctionArgumentV>),
    ParseError,
>
    decreases rem(toks, i), 2int,
{
    if tok_at(toks, i).kind == TokenKind::CloseParenthesis {
        Ok((i + 1, Seq::empty()))
    } else {
        match tok_at(toks, i).kind {
            TokenKind::Identifier(id) => {
                let k = if tok_at(toks, i + 1).kind == TokenKind::Colon {
                    i + 3
                } else {
                    i + 1
                };
                if tok_at(toks, i + 1).kind == TokenKind::Colon && !(tok_at(toks, i + 2).kind
                    matches TokenKind::Type(_)) {
                    // a declared argument type is parsed though not retained
                    Err(ParseError::ExpectedType { at: (i + 2) as usize })
                } else {
                    let after_default: Result<(int, Option<HugValueV>), ParseError> = if tok_at(
                        toks,
                        k,
                    ).kind == TokenKind::Assign {
                        match spec_expression(toks, k + 1) {
                            Ok((m, e)) => match e {
                                ExpressionV::Literal(v) => Ok((m, Some(v))),
                                _ => Err(ParseError::NonConstantDefault { at: (k + 1) as usize }),
                            },
                            Err(e) => Err(e),
                        }
                    } else {
                        Ok((k, None))
                    };
                    match after_default {
                        Ok((m, default_value)) => {
                            let arg = HugFunctionArgumentV { ident: id, default_value };
                            if i < m <= toks.len() {
                                match tok_at(toks, m).kind {
                                    TokenKind::Comma => match spec_argument_items(toks, m + 1) {
                                        Ok((end, rest)) => Ok((end, seq![arg] + rest)),
                                        Err(err) => Err(err),
                                    },
                                    TokenKind::CloseParenthesis => Ok((m + 1, seq![arg])),
                                    _ => Err(ParseError::SyntaxError { at: m as usize }),
                                }
                            } else {
                                // unreachable: the argument consumed at least one token
                                Err(ParseError::SyntaxError { at: i as usize })
                            }
                        },
                        Err(e) => Err(e),
                    }
                }
            },
            _ => Err(ParseError::ExpectedIdentifier { at: i as usize }),
        }
    }
}

/// A parenthesized argument list: the opening parenthesis, the arguments,
/// the closing parenthesis.
pub open spec fn spec_argument_list(toks: Seq<TokenPairV>, i: int) -> Result<
    (int, Seq<HugFunctionArgumentV>),
    ParseError,
>
    decreases rem(toks, i), 3int,
{
    if tok_at(toks, i).kind != TokenKind::OpenParenthesis {
        Err(ParseError::ExpectedKind { expected: TokenKind::OpenParenthesis, at: i as usize })
    } else {
        spec_argument_items(toks, i + 1)
    }
}

/// The stripped value text of one annotation argument: string literals
/// lose their surrounding quotes, all other literal text is kept verbatim.
pub open spec fn spec_annotation_value(k: LiteralKind, text: Seq<char>) -> Result<
    Seq<char>,
    ParseError,
> {
    if k == LiteralKind::String {
        match spec_parse_from_type(TypeKind::String, text) {
            Ok(v) => match v {
                HugValueV::String(s) => Ok(s),
                _ => Err(ParseError::InvalidLiteral { declared: TypeKind::String }),
            },
            Err(e) => Err(e),
        }
    } else {
        Ok(text)
    }
}

/// The `name = literal` arguments of an annotation, each triple followed
/// by one separator token; the closing parenthesis ends the list.
pub open spec fn spec_annotation_args(toks: Seq<TokenPairV>, i: int) -> Result<
    (int, Seq<HugAnnotationArgV>),
    ParseError,
>
    decreases rem(toks, i), 4int,
{
    match tok_at(toks, i).kind {
        TokenKind::Identifier(_) => {
            if tok_at(toks, i + 1).kind != TokenKind::Assign {
                Err(ParseError::ExpectedKind { expected: TokenKind::Assign, at: (i + 1) as usize })
            } else {
                match tok_at(toks, i + 2).kind {
                    TokenKind::Literal(k) => match spec_annotation_value(
                        k,
                        tok_at(toks, i + 2).text,
                    ) {
                        Ok(value) => {
                            let arg = HugAnnotationArgV {
                                name: tok_at(toks, i).text,
                                kind: k,
                                value,
                            };
                            if tok_at(toks, i + 3).kind == TokenKind::CloseParenthesis {
                                Ok((i + 4, seq![arg]))
                            } else if i + 3 < toks.len() {
                                // any other single token separates arguments
                                match spec_annotation_args(toks, i + 4) {
                                    Ok((end, rest)) => Ok((end, seq![arg] + rest)),
                                    Err(err) => Err(err),
                                }
                            } else {
                                Err(ParseError::ExpectedIdentifier { at: (i + 3) as usize })
                            }
                        },
                        Err(e) => Err(e),
                    },
                    _ => Err(ParseError::ExpectedLiteral { at: (i + 2) as usize }),
                }
            }
        },
        _ => Err(ParseError::ExpectedIdentifier { at: i as usize }),
    }
}

/// The first pending argument named `location`, read left to right.
pub open spec fn find_location_value(args: Seq<HugAnnotationArgV>) -> Option<Seq<char>>
    decreases args.len(),
{
    if args.len() == 0 {
        None
    } else if args[0].name == "location"@ {
        Some(args[0].value)
    } else {
        find_location_value(args.drop_first())
    }
}

/// A left-to-right search that finds `location` at `i`, with no earlier
/// match, finds its value.
pub proof fn lemma_find_location_found(args: Seq<HugAnnotationArgV>, i: int)
    requires
        0 <= i < args.len(),
        args[i].name == "location"@,
        forall|k: int| 0 <= k < i ==> (#[trigger] args[k]).name != "location"@,
    ensures
        find_location_value(args) == Some(args[i].value),
    decreases i,
{
    if i > 0 {
        lemma_find_location_found(args.drop_first(), i - 1);
    }
}

/// A left-to-right search that finds no `location` finds no value.
pub proof fn lemma_find_location_none(args: Seq<HugAnnotationArgV>)
    requires
        forall|k: int| 0 <= k < args.len() ==> (#[trigger] args[k]).name != "location"@,
    ensures
        find_location_value(args) is None,
    decreases args.len(),
{
    if args.len() > 0 {
        lemma_find_location_none(args.drop_first());
    }
}

/// One annotation: the marker token, an optional parenthesized argument
/// list, and the effect on the pending annotation state. An annotation is
/// never an entry itself.
pub open spec fn spec_annotation(
    toks: Seq<TokenPairV>,
    i: int,
    ann: HugTreeAnnotationStateV,
    kind: AnnotationKind,
) -> Result<(int, HugTreeAnnotationStateV), ParseError>
    decreases rem(toks, i), 5int,
{
    let argr: Result<(int, Seq<HugAnnotationArgV>), ParseError> = if tok_at(toks, i + 1).kind
        == TokenKind::OpenParenthesis {
        spec_annotation_args(toks, i + 2)
    } else {
        Ok((i + 1, Seq::empty()))
    };
    match argr {
        Ok((j, args)) => {
            if args.len() > 0 {
                match kind {
                    AnnotationKind::Extern => match find_location_value(args) {
                        Some(loc) => Ok(
                            (
                                j,
                                HugTreeAnnotationStateV {
                                    is_extern: true,
                                    extern_location: loc,
                                    ..ann
                                },
                            ),
                        ),
                        None => Err(ParseError::MissingExternLocation),
                    },
                    AnnotationKind::Other(id) => {
                        if has_custom(ann.custom, id) {
                            Err(ParseError::DuplicateAnnotation { key: id })
                        } else {
                            Ok(
                                (
                                    j,
                                    HugTreeAnnotationStateV {
                                        custom: ann.custom.push(
                                            crate::state::HugCustomAnnotationV { key: id, args },
                                        ),
                                        ..ann
                                    },
                                ),
                            )
                        }
                    },
                }
            } else {
                match kind {
                    AnnotationKind::Extern => Ok(
                        (
                            j,
                            HugTreeAnnotationStateV {
                                is_extern: true,
                                extern_location: Seq::empty(),
                                ..ann
                            },
                        ),
                    ),
                    AnnotationKind::Other(id) => {
                        if has_custom(ann.custom, id) {
                            Err(ParseError::DuplicateAnnotation { key: id })
                        } else {
                            Ok(
                                (
                                    j,
                                    HugTreeAnnotationStateV {
                                        custom: ann.custom.push(
                                            crate::state::HugCustomAnnotationV {
                                                key: id,
                                                args: Seq::empty(),
                                            },
                                        ),
                                        ..ann
                                    },
                                ),
                            )
                        }
                    },
                }
            }
        },
        Err(e) => Err(e),
    }
}

/// A variable definition after the `let` keyword: the bound identifier,
/// `=` or a colon-prefixed declared type and `=`, and the initializer.
pub open spec fn spec_variable_definition(
    toks: Seq<TokenPairV>,
    i: int,
    entries: Seq<HugTreeEntryV>,
) -> Result<(int, Seq<HugTreeEntryV>), ParseError>
    decreases rem(toks, i), 5int,
{
    match tok_at(toks, i).kind {
        TokenKind::Identifier(name) => match tok_at(toks, i + 1).kind {
            TokenKind::Assign => match spec_expression(toks, i + 2) {
                Ok((j, value)) => Ok(
                    (
                        j,
                        entries.push(HugTreeEntryV::VariableDefinition { variable: name, value }),
                    ),
                ),
                Err(e) => Err(e),
            },
            TokenKind::Colon => {
                if !(tok_at(toks, i + 2).kind matches TokenKind::Type(_)) {
                    // the declared type is parsed though not used to coerce
                    Err(ParseError::ExpectedType { at: (i + 2) as usize })
                } else if tok_at(toks, i + 3).kind != TokenKind::Assign {
                    Err(
                        ParseError::ExpectedKind {
                            expected: TokenKind::Assign,
                            at: (i + 3) as usize,
                        },
                    )
                } else {
                    match spec_expression(toks, i + 4) {
                        Ok((j, value)) => Ok(
                            (
                                j,
                                entries.push(
                                    HugTreeEntryV::VariableDefinition { variable: name, value },
                                ),
                            ),
                        ),
                        Err(e) => Err(e),
                    }
                }
            },
            _ => Err(ParseError::UnexpectedToken { at: (i + 1) as usize }),
        },
        _ => Err(ParseError::ExpectedIdentifier { at: i as usize }),
    }
}

/// The dot-separated identifier path of a use declaration, after its first
/// segment.
pub open spec fn spec_use_path(toks: Seq<TokenPairV>, i: int, path: Seq<crate::token::Ident>) -> Result<
    (int, Seq<crate::token::Ident>),
    ParseError,
>
    decreases rem(toks, i), 5int,
{
    if tok_at(toks, i).kind == TokenKind::Dot && i < toks.len() {
        match tok_at(toks, i + 1).kind {
            TokenKind::Identifier(seg) => spec_use_path(toks, i + 2, path.push(seg)),
            _ => Err(ParseError::ExpectedIdentifier { at: (i + 1) as usize }),
        }
    } else {
        Ok((i, path))
    }
}

/// One keyword-led declaration, after its keyword token was consumed.
pub open spec fn spec_keyword(
    toks: Seq<TokenPairV>,
    i: int,
    st: ParseStV,
    sc: HugScopeV,
    kind: KeywordKind,
) -> Result<(int, ParseStV, HugScopeV, bool), ParseError>
    decreases rem(toks, i), 6int,
{
    match kind {
        KeywordKind::Fn => match tok_at(toks, i).kind {
            TokenKind::Identifier(global) => match spec_argument_list(toks, i + 1) {
                Ok((j, arguments)) => {
                    let body_at: Result<int, ParseError> = if tok_at(toks, j).kind
                        == TokenKind::Arrow {
                        // a return type is parsed though not retained
                        if tok_at(toks, j + 1).kind matches TokenKind::Type(_) {
                            Ok(j + 2)
                        } else {
                            Err(ParseError::ExpectedType { at: (j + 1) as usize })
                        }
                    } else {
                        Ok(j)
                    };
                    match body_at {
                        Ok(b) => {
                            if i < b <= toks.len() {
                                match spec_scope(toks, b, st) {
                                    Ok((k, st2, _body)) => {
                                        let (ids2, local) = spec_intern(sc.idents, global);
                                        let ms1 = spec_set(
                                            sc.members,
                                            local,
                                            HugValueV::Function(0),
                                        );
                                        let ms2 = spec_push_entry(
                                            ms1,
                                            local,
                                            HugTreeEntryV::FunctionDefinition {
                                                ident: local,
                                                arguments,
                                            },
                                        );
                                        Ok(
                                            (
                                                k,
                                                st2,
                                                HugScopeV { idents: ids2, members: ms2 },
                                                true,
                                            ),
                                        )
                                    },
                                    Err(e) => Err(e),
                                }
                            } else {
                                // unreachable: the argument list consumed tokens
                                Err(ParseError::SyntaxError { at: i as usize })
                            }
                        },
                        Err(e) => Err(e),
                    }
                },
                Err(e) => Err(e),
            },
            _ => Err(ParseError::ExpectedIdentifier { at: i as usize }),
        },
        KeywordKind::Let => match spec_variable_definition(toks, i, st.entries) {
            Ok((j, entries2)) => Ok((j, ParseStV { entries: entries2, ..st }, sc, true)),
            Err(e) => Err(e),
        },
        KeywordKind::Module => {
            if st.ann.is_extern && st.ann.extern_location.len() > 0 {
                match tok_at(toks, i).kind {
                    TokenKind::Identifier(module) => Ok(
                        (
                            i + 1,
                            ParseStV {
                                entries: st.entries.push(
                                    HugTreeEntryV::ExternalModuleDefinition {
                                        location: st.ann.extern_location,
                                        module,
                                    },
                                ),
                                ..st
                            },
                            sc,
                            true,
                        ),
                    ),
                    _ => Err(ParseError::ExpectedIdentifier { at: i as usize }),
                }
            } else {
                Err(ParseError::NotYetImplemented { feature: Feature::NonExternModule })
            }
        },
        KeywordKind::Type => {
            if st.ann.is_extern {
                match tok_at(toks, i).kind {
                    TokenKind::Identifier(type_ident) => Ok(
                        (
                            i + 1,
                            ParseStV {
                                entries: st.entries.push(
                                    HugTreeEntryV::ExternalTypeDefinition { type_ident },
                                ),
                                ..st
                            },
                            sc,
                            true,
                        ),
                    ),
                    _ => Err(ParseError::ExpectedIdentifier { at: i as usize }),
                }
            } else {
                Err(ParseError::NotYetImplemented { feature: Feature::NonExternType })
            }
        },
        KeywordKind::Use => match tok_at(toks, i).kind {
            TokenKind::Identifier(first) => match spec_use_path(toks, i + 1, seq![first]) {
                Ok((j, path)) => Ok(
                    (
                        j,
                        ParseStV { entries: st.entries.push(HugTreeEntryV::Import { path }), ..st },
                        sc,
                        true,
                    ),
                ),
                Err(e) => Err(e),
            },
            _ => Err(ParseError::ExpectedIdentifier { at: i as usize }),
        },
        KeywordKind::Return => match spec_expression(toks, i) {
            Ok((j, e)) => Ok(
                (
                    j,
                    ParseStV { entries: st.entries.push(HugTreeEntryV::Expression(e)), ..st },
                    sc,
                    true,
                ),
            ),
            Err(e) => Err(e),
        },
        _ => Ok((i, st, sc, false)),
    }
}

/// An identifier-led statement: reassignment is recognized but not
/// implemented; anything else is an expression statement.
pub open spec fn spec_identifier(toks: Seq<TokenPairV>, i: int, st: ParseStV) -> Result<
    (int, ParseStV, bool),
    ParseError,
>
    decreases rem(toks, i), 6int,
{
    if tok_at(toks, i + 1).kind == TokenKind::Assign {
        Err(ParseError::NotYetImplemented { feature: Feature::Reassignment })
    } else {
        match spec_expression(toks, i) {
            Ok((j, e)) => Ok(
                (j, ParseStV { entries: st.entries.push(HugTreeEntryV::Expression(e)), ..st }, true),
            ),
            Err(e) => Err(e),
        }
    }
}

/// One dispatch step: the peeked token routes to keyword, identifier-led
/// statement, annotation, or comment handling. `false` means the token
/// cannot start a statement here and nothing was consumed.
pub open spec fn spec_visit(toks: Seq<TokenPairV>, i: int, st: ParseStV, sc: HugScopeV) -> Result<
    (int, ParseStV, HugScopeV, bool),
    ParseError,
>
    decreases rem(toks, i), 7int,
{
    match tok_at(toks, i).kind {
        TokenKind::Keyword(kind) => {
            if i < toks.len() {
                spec_keyword(toks, i + 1, st, sc, kind)
            } else {
                // unreachable: past the end the token is the null sentinel
                Err(ParseError::SyntaxError { at: i as usize })
            }
        },
        TokenKind::Identifier(_) => match spec_identifier(toks, i, st) {
            Ok((j, st2, stepped)) => Ok((j, st2, sc, stepped)),
            Err(e) => Err(e),
        },
        TokenKind::Annotation(kind) => {
            if i < toks.len() {
                match spec_annotation(toks, i, st.ann, kind) {
                    Ok((j, ann2)) => Ok((j, ParseStV { ann: ann2, ..st }, sc, true)),
                    Err(e) => Err(e),
                }
            } else {
                Err(ParseError::SyntaxError { at: i as usize })
            }
        },
        TokenKind::LineComment => Ok((i + 1, st, sc, true)),
        TokenKind::BlockComment => Ok((i + 1, st, sc, true)),
        TokenKind::Unknown => Err(ParseError::UnknownToken { at: i as usize }),
        _ => Ok((i, st, sc, false)),
    }
}

/// The statements of a brace-delimited body, up to and including the
/// closing brace, filling a scope of their own.
pub open spec fn spec_scope_items(
    toks: Seq<TokenPairV>,
    i: int,
    st: ParseStV,
    sc: HugScopeV,
) -> Result<(int, ParseStV, HugScopeV), ParseError>
    decreases rem(toks, i), 8int,
{
    if tok_at(toks, i).kind == TokenKind::CloseBrace {
        Ok((i + 1, st, sc))
    } else {
        match spec_visit(toks, i, st, sc) {
            Ok((j, st2, sc2, stepped)) => {
                if stepped && i < j <= toks.len() {
                    spec_scope_items(toks, j, st2, sc2)
                } else {
                    Err(ParseError::SyntaxError { at: i as usize })
                }
            },
            Err(e) => Err(e),
        }
    }
}

/// A brace-delimited body parsed as a fresh nested scope.
pub open spec fn spec_scope(toks: Seq<TokenPairV>, i: int, st: ParseStV) -> Result<
    (int, ParseStV, HugScopeV),
    ParseError,
>
    decreases rem(toks, i), 9int,
{
    if tok_at(toks, i).kind != TokenKind::OpenBrace {
        Err(ParseError::ExpectedKind { expected: TokenKind::OpenBrace, at: i as usize })
    } else {
        spec_scope_items(toks, i + 1, st, empty_scope_v())
    }
}

/// The top-level statements, dispatched against the root scope until the
/// token sequence is exhausted.
pub open spec fn spec_parse_items(
    toks: Seq<TokenPairV>,
    i: int,
    st: ParseStV,
    root: HugScopeV,
) -> Result<(ParseStV, HugScopeV), ParseError>
    decreases rem(toks, i), 10int,
{
    if i >= toks.len() {
        Ok((st, root))
    } else {
        match spec_visit(toks, i, st, root) {
            Ok((j, st2, root2, stepped)) => {
                if stepped && i < j <= toks.len() {
                    spec_parse_items(toks, j, st2, root2)
                } else {
                    Err(ParseError::SyntaxError { at: i as usize })
                }
            },
            Err(e) => Err(e),
        }
    }
}

/// The whole parse: annotation state is reset once, then the top level is
/// dispatched until exhaustion. Parsing is a pure function of the token
/// sequence.
pub open spec fn spec_parse(toks: Seq<TokenPairV>) -> Result<HugTreeV, ParseError> {
    let st0 = ParseStV { entries: Seq::empty(), ann: empty_annotation_state_v() };
    match spec_parse_items(toks, 0, st0, empty_scope_v()) {
        Ok((st, root)) => Ok(HugTreeV { root, entries: st.entries }),
        Err(e) => Err(e),
    }
}

} // verus!
