//! The token-pair cursor and grammar driver: pulls token pairs with one
//! token of lookahead, dispatches on the peeked kind, and drives scope and
//! annotation state while appending entries to the tree. Every method is
//! proved to return exactly what the corresponding grammar function of
//! [`crate::grammar`] says.

use vstd::prelude::*;

use crate::ast::HugFunctionArgument;
use crate::ast::HugScope;
use crate::ast::HugTree;
use crate::ast::HugTreeEntry;
use crate::ast::Expression;
use crate::ast::empty_scope_v;
use crate::ast::lemma_set_has_member;
use crate::error::Feature;
use crate::error::ParseError;
use crate::grammar::ParseStV;
use crate::grammar::spec_annotation;
use crate::grammar::spec_annotation_args;
use crate::grammar::spec_argument_items;
use crate::grammar::spec_argument_list;
use crate::grammar::spec_call_args;
use crate::grammar::spec_expression;
use crate::grammar::spec_identifier;
use crate::grammar::spec_keyword;
use crate::grammar::spec_parse;
use crate::grammar::spec_parse_items;
use crate::grammar::spec_scope;
use crate::grammar::spec_scope_items;
use crate::grammar::spec_use_path;
use crate::grammar::spec_variable_definition;
use crate::grammar::spec_visit;
use crate::grammar::lemma_find_location_found;
use crate::grammar::lemma_find_location_none;
use crate::state::HugAnnotationArg;
use crate::state::HugTreeAnnotationState;
use crate::state::empty_annotation_state_v;
use crate::token::AnnotationKind;
use crate::token::Ident;
use crate::token::KeywordKind;
use crate::token::LiteralKind;
use crate::token::TokenKind;
use crate::token::TokenPair;
use crate::token::TokenPairV;
use crate::token::TypeKind;
use crate::token::tok_at;
use crate::value::HugValue;

verus! {

/// The parser: the filtered token-pair sequence with the cursor position,
/// the tree under construction, and the pending annotation state.
#[derive(Debug)]
pub struct HugTreeParser {
    pub tree: HugTree,
    pub pairs: Vec<TokenPair>,
    pub pos: usize,
    pub annotation_state: HugTreeAnnotationState,
}

impl HugTreeParser {
    /// The token sequence this parser reads.
    pub open spec fn toks(self) -> Seq<TokenPairV> {
        Seq::new(self.pairs@.len(), |i: int| self.pairs@[i].deep_view())
    }

    /// The grammar-visible state: gathered entries and annotation state.
    pub open spec fn st(self) -> ParseStV {
        ParseStV { entries: self.tree.deep_view().entries, ann: self.annotation_state.deep_view() }
    }

    /// The cursor never passes the end of the sequence.
    pub open spec fn wf(self) -> bool {
        self.pos <= self.pairs@.len()
    }

    /// Builds a parser over an already-filtered token-pair sequence.
    pub fn new(pairs: Vec<TokenPair>) -> (p: HugTreeParser)
        ensures
            p.wf(),
            p.pos == 0,
            p.toks() == Seq::new(pairs@.len(), |i: int| pairs@[i].deep_view()),
            p.st() == (ParseStV {
                entries: Seq::<crate::ast::HugTreeEntryV>::empty(),
                ann: empty_annotation_state_v(),
            }),
            p.tree.deep_view().root == empty_scope_v(),
    {
        let p = HugTreeParser {
            annotation_state: HugTreeAnnotationState::new(),
            pairs,
            pos: 0,
            tree: HugTree::new(),
        };
        proof {
            assert(p.st().entries =~= Seq::<crate::ast::HugTreeEntryV>::empty());
        }
        p
    }

    /// Consumes and returns the next token pair; the null sentinel once
    /// the stream is exhausted.
    pub fn next(&mut self) -> (r: TokenPair)
        requires
            old(self).wf(),
        ensures
            final(self).wf(),
            r.deep_view() == tok_at(old(self).toks(), old(self).pos as int),
            final(self).pairs == old(self).pairs,
            final(self).tree == old(self).tree,
            final(self).annotation_state == old(self).annotation_state,
            final(self).pos == if old(self).pos < old(self).pairs@.len() {
                old(self).pos + 1
            } else {
                old(self).pos as int
            },
    {
        if self.pos < self.pairs.len() {
            let p = &self.pairs[self.pos];
            let r = TokenPair { kind: p.kind, text: p.text.clone() };
            self.pos = self.pos + 1;
            r
        } else {
            TokenPair::null()
        }
    }

    /// Returns the next token pair without consuming it.
    pub fn peek_next(&self) -> (r: TokenPair)
        requires
            self.wf(),
        ensures
            r.deep_view() == tok_at(self.toks(), self.pos as int),
    {
        if self.pos < self.pairs.len() {
            let p = &self.pairs[self.pos];
            TokenPair { kind: p.kind, text: p.text.clone() }
        } else {
            TokenPair::null()
        }
    }

    /// Whether the next token has exactly the given kind.
    pub fn peek_next_is(&self, kind: TokenKind) -> (r: bool)
        requires
            self.wf(),
        ensures
            r == (tok_at(self.toks(), self.pos as int).kind == kind),
    {
        self.peek_next().kind.expect_kind(kind)
    }

    /// One expression: a literal, a variable reference, or a call.
    pub fn expression(&mut self) -> (r: Result<Expression, ParseError>)
        requires
            old(self).wf(),
        ensures
            final(self).wf(),
            final(self).pairs == old(self).pairs,
            final(self).tree == old(self).tree,
            final(self).annotation_state == old(self).annotation_state,
            match spec_expression(old(self).toks(), old(self).pos as int) {
                Ok((j, e)) => r matches Ok(ex) && ex.deep_view() == e && final(self).pos == j
                    && old(self).pos < j,
                Err(pe) => r == Err::<Expression, ParseError>(pe),
            },
        decreases old(self).pairs@.len() - old(self).pos, 0int,
    {
        let pair = self.peek_next();
        match pair.kind {
            TokenKind::Literal(_) => {
                let lit = self.next();
                match lit.parse_literal() {
                    Ok(v) => Ok(Expression::Literal(v)),
                    Err(e) => Err(e),
                }
            },
            TokenKind::Identifier(id) => {
                self.next();
                match self.peek_next().kind {
                    TokenKind::Dot => Err(
                        ParseError::NotYetImplemented { feature: Feature::FieldAccess },
                    ),
                    TokenKind::OpenParenthesis => {
                        self.next();
                        match self.call_arguments() {
                            Ok(args) => Ok(Expression::Call { function: id, args }),
                            Err(e) => Err(e),
                        }
                    },
                    _ => Ok(Expression::Variable(id)),
                }
            },
            _ => Err(ParseError::InvalidExpression { at: self.pos }),
        }
    }

    /// The argument expressions of a call, up to and including the closing
    /// parenthesis.
    fn call_arguments(&mut self) -> (r: Result<Vec<Expression>, ParseError>)
        requires
            old(self).wf(),
        ensures
            final(self).wf(),
            final(self).pairs == old(self).pairs,
            final(self).tree == old(self).tree,
            final(self).annotation_state == old(self).annotation_state,
            match spec_call_args(old(self).toks(), old(self).pos as int) {
                Ok((j, args)) => r matches Ok(v) && crate::ast::exprs_view(v@) == args
                    && final(self).pos == j && old(self).pos < j,
                Err(pe) => r == Err::<Vec<Expression>, ParseError>(pe),
            },
        decreases old(self).pairs@.len() - old(self).pos, 1int,
    {
        proof {
            crate::ast::lemma_exprs_view(Seq::<Expression>::empty());
        }
        if self.peek_next_is(TokenKind::CloseParenthesis) {
            self.next();
            let v: Vec<Expression> = Vec::new();
            proof {
                assert(crate::ast::exprs_view(v@) =~= Seq::<crate::ast::ExpressionV>::empty());
            }
            return Ok(v);
        }
        let e = match self.expression() {
            Ok(e) => e,
            Err(err) => {
                return Err(err);
            },
        };
        match self.peek_next().kind {
            TokenKind::Comma => {
                self.next();
                if self.peek_next_is(TokenKind::CloseParenthesis) {
                    Err(ParseError::SyntaxError { at: self.pos })
                } else {
                    match self.call_arguments() {
                        Ok(rest) => {
                            let ghost rest0 = rest@;
                            let mut v = rest;
                            v.insert(0, e);
                            proof {
                                assert(v@[0] == e);
                                assert(v@.subrange(1, v@.len() as int) =~= rest0);
                                assert(crate::ast::exprs_view(v@) == seq![crate::ast::expr_view(
                                    v@[0],
                                )] + crate::ast::exprs_view(v@.subrange(1, v@.len() as int)));
                            }
                            Ok(v)
                        },
                        Err(err) => Err(err),
                    }
                }
            },
            TokenKind::CloseParenthesis => {
                self.next();
                let mut v: Vec<Expression> = Vec::new();
                v.push(e);
                proof {
                    assert(crate::ast::exprs_view(v@) =~= seq![crate::ast::expr_view(v@[0])]
                        + crate::ast::exprs_view(v@.subrange(1, v@.len() as int)));
                    assert(v@.subrange(1, v@.len() as int) =~= Seq::<Expression>::empty());
                }
                Ok(v)
            },
            _ => Err(ParseError::SyntaxError { at: self.pos }),
        }
    }

    /// One or more declared function arguments, up to and including the
    /// closing parenthesis.
    fn argument_items(&mut self) -> (r: Result<Vec<HugFunctionArgument>, ParseError>)
        requires
            old(self).wf(),
        ensures
            final(self).wf(),
            final(self).pairs == old(self).pairs,
            final(self).tree == old(self).tree,
            final(self).annotation_state == old(self).annotation_state,
            match spec_argument_items(old(self).toks(), old(self).pos as int) {
                Ok((j, args)) => r matches Ok(v) && crate::ast::args_view(v@) == args
                    && final(self).pos == j && old(self).pos < j,
                Err(pe) => r == Err::<Vec<HugFunctionArgument>, ParseError>(pe),
            },
        decreases old(self).pairs@.len() - old(self).pos, 2int,
    {
        if self.peek_next_is(TokenKind::CloseParenthesis) {
            self.next();
            let v: Vec<HugFunctionArgument> = Vec::new();
            proof {
                assert(crate::ast::args_view(v@) =~= Seq::<
                    crate::ast::HugFunctionArgumentV,
                >::empty());
            }
            return Ok(v);
        }
        let id_at = self.pos;
        let idp = self.next();
        let id = match idp.kind.expect_ident() {
            Some(id) => id,
            None => {
                return Err(ParseError::ExpectedIdentifier { at: id_at });
            },
        };
        if self.peek_next_is(TokenKind::Colon) {
            self.next();
            let ty_at = self.pos;
            let typ = self.next();
            match typ.kind.expect_type() {
                Some(_) => {},
                None => {
                    return Err(ParseError::ExpectedType { at: ty_at });
                },
            }
        }
        let default_value: Option<HugValue> = if self.peek_next_is(TokenKind::Assign) {
            self.next();
            let d_at = self.pos;
            let e = match self.expression() {
                Ok(e) => e,
                Err(err) => {
                    return Err(err);
                },
            };
            if !e.is_constant() {
                return Err(ParseError::NonConstantDefault { at: d_at });
            }
            match e.get_constant_value() {
                Some(v) => Some(v),
                None => {
                    proof {
                        assert(false);
                    }
                    vstd::pervasive::unreached()
                },
            }
        } else {
            None
        };
        let arg = HugFunctionArgument { ident: id, default_value };
        match self.peek_next().kind {
            TokenKind::Comma => {
                self.next();
                match self.argument_items() {
                    Ok(rest) => {
                        let ghost rest0 = rest@;
                        let mut v = rest;
                        v.insert(0, arg);
                        proof {
                            assert(v@[0] == arg);
                            assert(v@.subrange(1, v@.len() as int) =~= rest0);
                            assert(crate::ast::args_view(v@) =~= seq![arg.deep_view()]
                                + crate::ast::args_view(rest0));
                        }
                        Ok(v)
                    },
                    Err(err) => Err(err),
                }
            },
            TokenKind::CloseParenthesis => {
                self.next();
                let mut v: Vec<HugFunctionArgument> = Vec::new();
                v.push(arg);
                proof {
                    assert(crate::ast::args_view(v@) =~= seq![arg.deep_view()]);
                }
                Ok(v)
            },
            _ => Err(ParseError::SyntaxError { at: self.pos }),
        }
    }

    /// A parenthesized argument list: an immediately following closing
    /// parenthesis yields the empty list.
    pub fn parse_argument_list(&mut self) -> (r: Result<Vec<HugFunctionArgument>, ParseError>)
        requires
            old(self).wf(),
        ensures
            final(self).wf(),
            final(self).pairs == old(self).pairs,
            final(self).tree == old(self).tree,
            final(self).annotation_state == old(self).annotation_state,
            match spec_argument_list(old(self).toks(), old(self).pos as int) {
                Ok((j, args)) => r matches Ok(v) && crate::ast::args_view(v@) == args
                    && final(self).pos == j && old(self).pos < j,
                Err(pe) => r == Err::<Vec<HugFunctionArgument>, ParseError>(pe),
            },
        decreases old(self).pairs@.len() - old(self).pos, 3int,
    {
        let op_at = self.pos;
        let op = self.next();
        if !op.kind.expect_kind(TokenKind::OpenParenthesis) {
            return Err(
                ParseError::ExpectedKind { expected: TokenKind::OpenParenthesis, at: op_at },
            );
        }
        self.argument_items()
    }

    /// The `name = literal` arguments of an annotation, each triple
    /// followed by one separator token.
    fn annotation_args(&mut self) -> (r: Result<Vec<HugAnnotationArg>, ParseError>)
        requires
            old(self).wf(),
        ensures
            final(self).wf(),
            final(self).pairs == old(self).pairs,
            final(self).tree == old(self).tree,
            final(self).annotation_state == old(self).annotation_state,
            match spec_annotation_args(old(self).toks(), old(self).pos as int) {
                Ok((j, args)) => r matches Ok(v) && crate::state::ann_args_view(v@) == args
                    && final(self).pos == j && old(self).pos < j,
                Err(pe) => r == Err::<Vec<HugAnnotationArg>, ParseError>(pe),
            },
        decreases old(self).pairs@.len() - old(self).pos, 3int,
    {
        let name_at = self.pos;
        let name_pair = self.next();
        match name_pair.kind.expect_ident() {
            Some(_) => {},
            None => {
                return Err(ParseError::ExpectedIdentifier { at: name_at });
            },
        }
        let assign_at = self.pos;
        let a = self.next();
        if !a.kind.expect_kind(TokenKind::Assign) {
            return Err(ParseError::ExpectedKind { expected: TokenKind::Assign, at: assign_at });
        }
        let lit_at = self.pos;
        let value_pair = self.next();
        let value_kind = match value_pair.kind.expect_literal() {
            Some(k) => k,
            None => {
                return Err(ParseError::ExpectedLiteral { at: lit_at });
            },
        };
        let value: String = if value_kind == LiteralKind::String {
            match crate::text::strip_first_last(value_pair.text.as_str()) {
                Some(m) => m,
                None => {
                    return Err(ParseError::InvalidLiteral { declared: TypeKind::String });
                },
            }
        } else {
            value_pair.text
        };
        let arg = HugAnnotationArg { name: name_pair.text, kind: value_kind, value };
        let sep_at = self.pos;
        let sep = self.next();
        if sep.kind.expect_kind(TokenKind::CloseParenthesis) {
            let mut v: Vec<HugAnnotationArg> = Vec::new();
            v.push(arg);
            proof {
                assert(crate::state::ann_args_view(v@) =~= seq![arg.deep_view()]);
            }
            Ok(v)
        } else if sep_at < self.pairs.len() {
            match self.annotation_args() {
                Ok(rest) => {
                    let ghost rest0 = rest@;
                    let mut v = rest;
                    v.insert(0, arg);
                    proof {
                        assert(v@[0] == arg);
                        assert(v@.subrange(1, v@.len() as int) =~= rest0);
                        assert(crate::state::ann_args_view(v@) =~= seq![arg.deep_view()]
                            + crate::state::ann_args_view(rest0));
                    }
                    Ok(v)
                },
                Err(err) => Err(err),
            }
        } else {
            Err(ParseError::ExpectedIdentifier { at: sep_at })
        }
    }

    /// One annotation: consumes the marker token and its optional argument
    /// list, mutating only the pending annotation state; never an entry.
    #[verifier::loop_isolation(false)]
    pub fn annotation(&mut self, kind: AnnotationKind) -> (r: Result<bool, ParseError>)
        requires
            old(self).wf(),
            old(self).pos < old(self).pairs@.len(),
        ensures
            final(self).wf(),
            final(self).pairs == old(self).pairs,
            final(self).tree == old(self).tree,
            match spec_annotation(old(self).toks(), old(self).pos as int, old(self).st().ann, kind) {
                Ok((j, ann2)) => r == Ok::<bool, ParseError>(true) && final(self).pos == j
                    && final(self).annotation_state.deep_view() == ann2 && old(self).pos < j,
                Err(pe) => r == Err::<bool, ParseError>(pe),
            },
        decreases old(self).pairs@.len() - old(self).pos, 4int,
    {
        self.next();
        let mut vars: Vec<HugAnnotationArg> = Vec::new();
        if self.peek_next_is(TokenKind::OpenParenthesis) {
            self.next();
            match self.annotation_args() {
                Ok(v) => {
                    vars = v;
                },
                Err(e) => {
                    return Err(e);
                },
            }
        }
        proof {
            assert(crate::state::ann_args_view(Seq::<HugAnnotationArg>::empty()) =~= Seq::<
                crate::state::HugAnnotationArgV,
            >::empty());
        }
        let ghost args_v = crate::state::ann_args_view(vars@);
        if vars.len() > 0 {
            match kind {
                AnnotationKind::Extern => {
                    let key: String = "location".to_owned();
                    let ghost mid = *self;
                    let n = vars.len();
                    let mut i: usize = 0;
                    while i < n
                        invariant
                            n == vars@.len(),
                            i <= n,
                            args_v == crate::state::ann_args_view(vars@),
                            forall|k: int|
                                0 <= k < i ==> (#[trigger] args_v[k]).name != "location"@,
                            key@ == "location"@,
                            *self == mid,
                        decreases n - i,
                    {
                        proof {
                            assert(args_v[i as int] == vars@[i as int].deep_view());
                        }
                        if vars[i].name == key {
                            proof {
                                lemma_find_location_found(args_v, i as int);
                            }
                            let loc = vars[i].value.clone();
                            self.annotation_state.set_extern(loc);
                            return Ok(true);
                        }
                        i = i + 1;
                    }
                    proof {
                        lemma_find_location_none(args_v);
                    }
                    Err(ParseError::MissingExternLocation)
                },
                AnnotationKind::Other(id) => {
                    match self.annotation_state.push_custom(id, vars) {
                        Ok(_) => Ok(true),
                        Err(e) => Err(e),
                    }
                },
            }
        } else {
            match kind {
                AnnotationKind::Extern => {
                    self.annotation_state.set_extern(String::new());
                    Ok(true)
                },
                AnnotationKind::Other(id) => {
                    match self.annotation_state.push_custom(id, vars) {
                        Ok(_) => Ok(true),
                        Err(e) => Err(e),
                    }
                },
            }
        }
    }

    /// An identifier-led statement: reassignment is recognized but not
    /// implemented; anything else is an expression statement.
    pub fn identifier(&mut self, _id: Ident) -> (r: Result<bool, ParseError>)
        requires
            old(self).wf(),
        ensures
            final(self).wf(),
            final(self).pairs == old(self).pairs,
            match spec_identifier(old(self).toks(), old(self).pos as int, old(self).st()) {
                Ok((j, st2, stepped)) => r == Ok::<bool, ParseError>(stepped) && final(self).pos
                    == j && final(self).st() == st2 && old(self).pos < j,
                Err(pe) => r == Err::<bool, ParseError>(pe),
            },
        decreases old(self).pairs@.len() - old(self).pos, 4int,
    {
        let follows_assign = if self.pos < self.pairs.len() && self.pos + 1 < self.pairs.len() {
            self.pairs[self.pos + 1].kind.expect_kind(TokenKind::Assign)
        } else {
            false
        };
        if follows_assign {
            Err(ParseError::NotYetImplemented { feature: Feature::Reassignment })
        } else {
            match self.expression() {
                Ok(e) => {
                    let ghost entry_v = crate::ast::HugTreeEntryV::Expression(e.deep_view());
                    self.tree.entries.push(HugTreeEntry::Expression(e));
                    proof {
                        assert(self.st().entries =~= old(self).st().entries.push(entry_v));
                    }
                    Ok(true)
                },
                Err(e) => Err(e),
            }
        }
    }

    /// A variable definition after the `let` keyword: the bound
    /// identifier, an optional colon-prefixed declared type, `=`, and the
    /// initializer expression.
    pub fn variable_definition(&mut self) -> (r: Result<bool, ParseError>)
        requires
            old(self).wf(),
        ensures
            final(self).wf(),
            final(self).pairs == old(self).pairs,
            final(self).annotation_state == old(self).annotation_state,
            match spec_variable_definition(
                old(self).toks(),
                old(self).pos as int,
                old(self).st().entries,
            ) {
                Ok((j, entries2)) => r == Ok::<bool, ParseError>(true) && final(self).pos == j
                    && final(self).st().entries == entries2 && old(self).pos < j,
                Err(pe) => r == Err::<bool, ParseError>(pe),
            },
        decreases old(self).pairs@.len() - old(self).pos, 4int,
    {
        let name_at = self.pos;
        let name = self.next();
        let name_id = match name.kind.expect_ident() {
            Some(id) => id,
            None => {
                return Err(ParseError::ExpectedIdentifier { at: name_at });
            },
        };
        let next_at = self.pos;
        let nx = self.next();
        match nx.kind {
            TokenKind::Assign => {
                let value = match self.expression() {
                    Ok(v) => v,
                    Err(e) => {
                        return Err(e);
                    },
                };
                let ghost entry_v = crate::ast::HugTreeEntryV::VariableDefinition {
                    variable: name_id,
                    value: value.deep_view(),
                };
                self.tree.entries.push(
                    HugTreeEntry::VariableDefinition { variable: name_id, value },
                );
                proof {
                    assert(self.st().entries =~= old(self).st().entries.push(entry_v));
                }
                Ok(true)
            },
            TokenKind::Colon => {
                let ty_at = self.pos;
                let ty = self.next();
                match ty.kind.expect_type() {
                    Some(_) => {},
                    None => {
                        return Err(ParseError::ExpectedType { at: ty_at });
                    },
                }
                let as_at = self.pos;
                let a = self.next();
                if !a.kind.expect_kind(TokenKind::Assign) {
                    return Err(
                        ParseError::ExpectedKind { expected: TokenKind::Assign, at: as_at },
                    );
                }
                let value = match self.expression() {
                    Ok(v) => v,
                    Err(e) => {
                        return Err(e);
                    },
                };
                let ghost entry_v = crate::ast::HugTreeEntryV::VariableDefinition {
                    variable: name_id,
                    value: value.deep_view(),
                };
                self.tree.entries.push(
                    HugTreeEntry::VariableDefinition { variable: name_id, value },
                );
                proof {
                    assert(self.st().entries =~= old(self).st().entries.push(entry_v));
                }
                Ok(true)
            },
            _ => Err(ParseError::UnexpectedToken { at: next_at }),
        }
    }

    /// One keyword-led declaration; consumes the keyword token first, then
    /// dispatches by its kind.
    #[verifier::loop_isolation(false)]
    pub fn keyword(&mut self, scope: &mut HugScope, kind: KeywordKind) -> (r: Result<
        bool,
        ParseError,
    >)
        requires
            old(self).wf(),
            old(self).pos < old(self).pairs@.len(),
        ensures
            final(self).wf(),
            final(self).pairs == old(self).pairs,
            match spec_keyword(
                old(self).toks(),
                old(self).pos + 1,
                old(self).st(),
                old(scope).deep_view(),
                kind,
            ) {
                Ok((j, st2, sc2, stepped)) => r == Ok::<bool, ParseError>(stepped)
                    && final(self).pos == j && final(self).st() == st2
                    && final(scope).deep_view() == sc2 && j > old(self).pos,
                Err(pe) => r == Err::<bool, ParseError>(pe),
            },
        decreases old(self).pairs@.len() - old(self).pos, 5int,
    {
        self.next();
        match kind {
            KeywordKind::Fn => {
                let id_at = self.pos;
                let idp = self.next();
                let global = match idp.kind.expect_ident() {
                    Some(g) => g,
                    None => {
                        return Err(ParseError::ExpectedIdentifier { at: id_at });
                    },
                };
                let arguments = match self.parse_argument_list() {
                    Ok(a) => a,
                    Err(e) => {
                        return Err(e);
                    },
                };
                if self.peek_next_is(TokenKind::Arrow) {
                    self.next();
                    let ty_at = self.pos;
                    let typ = self.next();
                    match typ.kind.expect_type() {
                        Some(_) => {},
                        None => {
                            return Err(ParseError::ExpectedType { at: ty_at });
                        },
                    }
                }
                let _function_body = match self.scope() {
                    Ok(s) => s,
                    Err(e) => {
                        return Err(e);
                    },
                };
                let ghost ms0 = scope.deep_view().members;
                let local = scope.ident(global);
                scope.set(local, HugValue::Function(0));
                proof {
                    lemma_set_has_member(
                        ms0,
                        local,
                        crate::value::HugValueV::Function(0),
                    );
                }
                let ghost args_v = crate::ast::args_view(arguments@);
                let ghost argsq = arguments@;
                let entry = HugTreeEntry::FunctionDefinition { ident: local, arguments };
                proof {
                    assert(Seq::new(argsq.len(), |i: int| argsq[i].deep_view()) =~= args_v);
                    assert(entry.deep_view() == (crate::ast::HugTreeEntryV::FunctionDefinition {
                        ident: local,
                        arguments: args_v,
                    }));
                }
                scope.push_entry(local, entry);
                Ok(true)
            },
            KeywordKind::Let => self.variable_definition(),
            KeywordKind::Module => {
                match self.annotation_state.get_extern() {
                    Some(location) => {
                        let m_at = self.pos;
                        let mp = self.next();
                        let module = match mp.kind.expect_ident() {
                            Some(m) => m,
                            None => {
                                return Err(ParseError::ExpectedIdentifier { at: m_at });
                            },
                        };
                        let ghost entry_v = crate::ast::HugTreeEntryV::ExternalModuleDefinition {
                            location: location@,
                            module,
                        };
                        self.tree.entries.push(
                            HugTreeEntry::ExternalModuleDefinition { location, module },
                        );
                        proof {
                            assert(self.st().entries =~= old(self).st().entries.push(entry_v));
                        }
                        Ok(true)
                    },
                    None => Err(
                        ParseError::NotYetImplemented { feature: Feature::NonExternModule },
                    ),
                }
            },
            KeywordKind::Type => {
                if self.annotation_state.is_extern {
                    let t_at = self.pos;
                    let tp = self.next();
                    let type_ident = match tp.kind.expect_ident() {
                        Some(t) => t,
                        None => {
                            return Err(ParseError::ExpectedIdentifier { at: t_at });
                        },
                    };
                    let ghost entry_v = crate::ast::HugTreeEntryV::ExternalTypeDefinition {
                        type_ident,
                    };
                    self.tree.entries.push(HugTreeEntry::ExternalTypeDefinition { type_ident });
                    proof {
                        assert(self.st().entries =~= old(self).st().entries.push(entry_v));
                    }
                    Ok(true)
                } else {
                    Err(ParseError::NotYetImplemented { feature: Feature::NonExternType })
                }
            },
            KeywordKind::Use => {
                let f_at = self.pos;
                let fp = self.next();
                let first = match fp.kind.expect_ident() {
                    Some(f) => f,
                    None => {
                        return Err(ParseError::ExpectedIdentifier { at: f_at });
                    },
                };
                let mut path: Vec<Ident> = Vec::new();
                path.push(first);
                proof {
                    assert(path@ =~= seq![first]);
                }
                let ghost t = self.toks();
                let ghost start = self.pos as int;
                while self.peek_next_is(TokenKind::Dot)
                    invariant
                        self.wf(),
                        self.pairs == old(self).pairs,
                        self.tree == old(self).tree,
                        self.annotation_state == old(self).annotation_state,
                        t == self.toks(),
                        start <= self.pos,
                        spec_use_path(t, self.pos as int, path@) == spec_use_path(
                            t,
                            start,
                            seq![first],
                        ),
                    decreases self.pairs@.len() - self.pos,
                {
                    self.next();
                    let s_at = self.pos;
                    let sp = self.next();
                    match sp.kind.expect_ident() {
                        Some(seg) => {
                            path.push(seg);
                        },
                        None => {
                            return Err(ParseError::ExpectedIdentifier { at: s_at });
                        },
                    }
                }
                let ghost entry_v = crate::ast::HugTreeEntryV::Import { path: path@ };
                self.tree.entries.push(HugTreeEntry::Import { path });
                proof {
                    assert(self.st().entries =~= old(self).st().entries.push(entry_v));
                }
                Ok(true)
            },
            KeywordKind::Return => {
                match self.expression() {
                    Ok(e) => {
                        let ghost entry_v = crate::ast::HugTreeEntryV::Expression(e.deep_view());
                        self.tree.entries.push(HugTreeEntry::Expression(e));
                        proof {
                            assert(self.st().entries =~= old(self).st().entries.push(entry_v));
                        }
                        Ok(true)
                    },
                    Err(e) => Err(e),
                }
            },
            _ => Ok(false),
        }
    }

    /// One dispatch step: routes the peeked token to keyword handling,
    /// identifier-led statement handling, annotation handling, or comment
    /// skipping. `false` means the token cannot start a statement here.
    pub fn visit_next_pair(&mut self, scope: &mut HugScope) -> (r: Result<bool, ParseError>)
        requires
            old(self).wf(),
        ensures
            final(self).wf(),
            final(self).pairs == old(self).pairs,
            match spec_visit(
                old(self).toks(),
                old(self).pos as int,
                old(self).st(),
                old(scope).deep_view(),
            ) {
                Ok((j, st2, sc2, stepped)) => r == Ok::<bool, ParseError>(stepped)
                    && final(self).pos == j && final(self).st() == st2
                    && final(scope).deep_view() == sc2 && (stepped ==> old(self).pos < j),
                Err(pe) => r == Err::<bool, ParseError>(pe),
            },
        decreases old(self).pairs@.len() - old(self).pos, 6int,
    {
        let pair = self.peek_next();
        match pair.kind {
            TokenKind::Keyword(kind) => self.keyword(scope, kind),
            TokenKind::Identifier(id) => self.identifier(id),
            TokenKind::Annotation(kind) => self.annotation(kind),
            TokenKind::LineComment => {
                self.next();
                Ok(true)
            },
            TokenKind::BlockComment => {
                self.next();
                Ok(true)
            },
            TokenKind::Unknown => Err(ParseError::UnknownToken { at: self.pos }),
            _ => Ok(false),
        }
    }

    /// The statements of a brace-delimited body, up to and including the
    /// closing brace.
    fn scope_items(&mut self, sc: &mut HugScope) -> (r: Result<(), ParseError>)
        requires
            old(self).wf(),
        ensures
            final(self).wf(),
            final(self).pairs == old(self).pairs,
            match spec_scope_items(
                old(self).toks(),
                old(self).pos as int,
                old(self).st(),
                old(sc).deep_view(),
            ) {
                Ok((j, st2, sc2)) => r == Ok::<(), ParseError>(()) && final(self).pos == j
                    && final(self).st() == st2 && final(sc).deep_view() == sc2
                    && old(self).pos < j,
                Err(pe) => r == Err::<(), ParseError>(pe),
            },
        decreases old(self).pairs@.len() - old(self).pos, 7int,
    {
        if self.peek_next_is(TokenKind::CloseBrace) {
            self.next();
            return Ok(());
        }
        let at = self.pos;
        match self.visit_next_pair(sc) {
            Ok(true) => self.scope_items(sc),
            Ok(false) => Err(ParseError::SyntaxError { at }),
            Err(e) => Err(e),
        }
    }

    /// A brace-delimited body parsed as a freshly created nested scope.
    pub fn scope(&mut self) -> (r: Result<HugScope, ParseError>)
        requires
            old(self).wf(),
        ensures
            final(self).wf(),
            final(self).pairs == old(self).pairs,
            match spec_scope(old(self).toks(), old(self).pos as int, old(self).st()) {
                Ok((j, st2, scv)) => r matches Ok(s) && s.deep_view() == scv && final(self).pos == j
                    && final(self).st() == st2 && old(self).pos < j,
                Err(pe) => r == Err::<HugScope, ParseError>(pe),
            },
        decreases old(self).pairs@.len() - old(self).pos, 8int,
    {
        let ob_at = self.pos;
        let ob = self.next();
        if !ob.kind.expect_kind(TokenKind::OpenBrace) {
            return Err(ParseError::ExpectedKind { expected: TokenKind::OpenBrace, at: ob_at });
        }
        let mut sc = HugScope::new();
        match self.scope_items(&mut sc) {
            Ok(()) => Ok(sc),
            Err(e) => Err(e),
        }
    }

    /// The whole parse: resets the annotation state once, then dispatches
    /// top-level statements against the root scope until the token
    /// sequence is exhausted. The result is a pure function of the token
    /// sequence.
    #[verifier::loop_isolation(false)]
    pub fn parse(self) -> (r: Result<HugTree, ParseError>)
        requires
            self.wf(),
            self.pos == 0,
            self.st().entries == Seq::<crate::ast::HugTreeEntryV>::empty(),
            self.tree.deep_view().root == empty_scope_v(),
        ensures
            match spec_parse(self.toks()) {
                Ok(t) => r matches Ok(tree) && tree.deep_view() == t,
                Err(pe) => r == Err::<HugTree, ParseError>(pe),
            },
    {
        let ghost toks0 = self.toks();
        let ghost st0 = ParseStV {
            entries: Seq::<crate::ast::HugTreeEntryV>::empty(),
            ann: empty_annotation_state_v(),
        };
        let mut p = self;
        p.annotation_state.reset();
        let mut root = HugScope::new();
        proof {
            assert(p.st() == st0);
        }
        while p.pos < p.pairs.len()
            invariant
                p.wf(),
                p.toks() == toks0,
                spec_parse_items(toks0, p.pos as int, p.st(), root.deep_view())
                    == spec_parse_items(toks0, 0, st0, empty_scope_v()),
            decreases p.pairs@.len() - p.pos,
        {
            let at = p.pos;
            match p.visit_next_pair(&mut root) {
                Ok(true) => {},
                Ok(false) => {
                    return Err(ParseError::SyntaxError { at });
                },
                Err(e) => {
                    return Err(e);
                },
            }
        }
        let mut tree = p.tree;
        tree.root = root;
        proof {
            assert(spec_parse_items(toks0, p.pos as int, p.st(), tree.root.deep_view())
                == spec_parse_items(toks0, 0, st0, empty_scope_v()));
        }
        Ok(tree)
    }
}

} // verus!
