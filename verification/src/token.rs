//! The token-pair model the parser consumes: a classified kind together
//! with the original source text. The external tokenizer produces this
//! sequence, with insignificant tokens already filtered out.

use vstd::prelude::*;

verus! {

/// An interned identifier handle produced by the external interning
/// facility; equality is by interned identity, not by text.
#[derive(Clone, Copy, PartialEq, Eq, Structural, Debug, Hash)]
pub struct Ident(pub usize);

impl DeepView for Ident {
    type V = Ident;

    open spec fn deep_view(&self) -> Ident {
        *self
    }
}

/// Keywords recognized by the tokenizer.
#[derive(Clone, Copy, PartialEq, Eq, Structural, Debug)]
pub enum KeywordKind {
    Enum,
    Fn,
    Let,
    Module,
    Private,
    Public,
    Type,
    Use,
    Return,
}

/// The two shapes of a prefix annotation: the built-in extern marker, or a
/// custom annotation named by an interned identifier.
#[derive(Clone, Copy, PartialEq, Eq, Structural, Debug)]
pub enum AnnotationKind {
    Extern,
    Other(Ident),
}

/// The sub-kind a literal token was classified with.
#[derive(Clone, Copy, PartialEq, Eq, Structural, Debug)]
pub enum LiteralKind {
    String,
    Integer,
    Float,
}

/// A declared type tag: the closed numeric lattice, text, or a user type.
#[derive(Clone, Copy, PartialEq, Eq, Structural, Debug)]
pub enum TypeKind {
    Int8,
    Int16,
    Int32,
    Int64,
    Int128,
    UInt8,
    UInt16,
    UInt32,
    UInt64,
    UInt128,
    Float32,
    Float64,
    String,
    Other(Ident),
}

/// The classified kind of one token.
#[derive(Clone, Copy, PartialEq, Eq, Structural, Debug)]
pub enum TokenKind {
    Keyword(KeywordKind),
    Identifier(Ident),
    Annotation(AnnotationKind),
    Literal(LiteralKind),
    Type(TypeKind),
    Dot,
    Comma,
    Colon,
    Assign,
    Arrow,
    OpenParenthesis,
    CloseParenthesis,
    OpenBrace,
    CloseBrace,
    OpenBracket,
    CloseBracket,
    Add,
    Subtract,
    Multiply,
    Divide,
    LineComment,
    BlockComment,
    Unknown,
    /// The sentinel kind of the pair returned once the stream is exhausted.
    Null,
}

impl TokenKind {
    /// The identifier payload, when this token is an identifier.
    pub fn expect_ident(&self) -> (r: Option<Ident>)
        ensures
            r == (match *self {
                TokenKind::Identifier(id) => Some(id),
                _ => None::<Ident>,
            }),
    {
        match *self {
            TokenKind::Identifier(id) => Some(id),
            _ => None,
        }
    }

    /// The literal sub-kind, when this token is a literal.
    pub fn expect_literal(&self) -> (r: Option<LiteralKind>)
        ensures
            r == (match *self {
                TokenKind::Literal(k) => Some(k),
                _ => None::<LiteralKind>,
            }),
    {
        match *self {
            TokenKind::Literal(k) => Some(k),
            _ => None,
        }
    }

    /// The type payload, when this token is a type.
    pub fn expect_type(&self) -> (r: Option<TypeKind>)
        ensures
            r == (match *self {
                TokenKind::Type(t) => Some(t),
                _ => None::<TypeKind>,
            }),
    {
        match *self {
            TokenKind::Type(t) => Some(t),
            _ => None,
        }
    }

    /// Whether this token has exactly the given kind.
    pub fn expect_kind(&self, kind: TokenKind) -> (r: bool)
        ensures
            r == (*self == kind),
    {
        *self == kind
    }
}

/// The mathematical shape of one token pair: its kind and the characters of
/// its source text.
pub struct TokenPairV {
    pub kind: TokenKind,
    pub text: Seq<char>,
}

/// One classified token together with its original source text.
#[derive(Debug, Clone, PartialEq)]
pub struct TokenPair {
    pub kind: TokenKind,
    pub text: String,
}

impl DeepView for TokenPair {
    type V = TokenPairV;

    open spec fn deep_view(&self) -> TokenPairV {
        TokenPairV { kind: self.kind, text: self.text@ }
    }
}

/// The sentinel pair standing for stream exhaustion.
pub open spec fn null_pair_v() -> TokenPairV {
    TokenPairV { kind: TokenKind::Null, text: Seq::empty() }
}

impl TokenPair {
    /// The sentinel pair representing an exhausted stream.
    pub fn null() -> (r: TokenPair)
        ensures
            r.deep_view() == null_pair_v(),
    {
        let r = TokenPair { kind: TokenKind::Null, text: String::new() };
        proof {
            assert(r.deep_view() == null_pair_v());
        }
        r
    }
}

/// The pair seen at position `i` of the stream: the token there, or the
/// null sentinel past the end.
pub open spec fn tok_at(toks: Seq<TokenPairV>, i: int) -> TokenPairV {
    if 0 <= i < toks.len() {
        toks[i]
    } else {
        null_pair_v()
    }
}

} // verus!
