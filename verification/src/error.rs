//! Parse failures, as plain recoverable values.
//!
//! Two tiers are distinguished: genuinely malformed input, and grammar
//! productions the front end knowingly does not implement yet. Each error
//! carries the stream position of the offending token, so a host can fetch
//! its text for diagnostics.

use vstd::prelude::*;

use crate::token::Ident;
use crate::token::TokenKind;
use crate::token::TypeKind;

verus! {

/// A construct the grammar recognizes but deliberately does not support
/// yet; reported apart from malformed input so tooling can tell "your
/// program is invalid" from "this feature does not exist yet".
#[derive(Clone, Copy, PartialEq, Eq, Structural, Debug)]
pub enum Feature {
    /// A module declaration without a preceding extern annotation.
    NonExternModule,
    /// A type declaration without a preceding extern annotation.
    NonExternType,
    /// Field access through `.` in an expression.
    FieldAccess,
    /// Assignment to an already-declared variable.
    Reassignment,
    /// A user-declared type tag in literal parsing.
    UserDefinedType,
    /// Floating-point literal text; the verified core carries only bit
    /// patterns and leaves decimal float conversion to its host.
    FloatLiteral,
}

/// One fatal parse failure. Positions index the token stream the parser
/// was constructed over.
#[derive(Clone, Copy, PartialEq, Eq, Structural, Debug)]
pub enum ParseError {
    /// A token of the given exact kind was required at this position.
    ExpectedKind { expected: TokenKind, at: usize },
    /// An identifier token was required at this position.
    ExpectedIdentifier { at: usize },
    /// A type token was required at this position.
    ExpectedType { at: usize },
    /// A literal token was required at this position.
    ExpectedLiteral { at: usize },
    /// No expression can start with the token at this position.
    InvalidExpression { at: usize },
    /// The tokenizer classified the token at this position as unknown.
    UnknownToken { at: usize },
    /// A token no rule accepts at this position of a variable definition.
    UnexpectedToken { at: usize },
    /// The token at this position cannot start a statement here.
    SyntaxError { at: usize },
    /// Literal text did not parse under its declared type tag.
    InvalidLiteral { declared: TypeKind },
    /// A default argument value was not a constant expression.
    NonConstantDefault { at: usize },
    /// A custom annotation with this identifier was already pending.
    DuplicateAnnotation { key: Ident },
    /// An extern annotation supplied arguments but no `location` key.
    MissingExternLocation,
    /// A recognized construct that is not implemented yet.
    NotYetImplemented { feature: Feature },
}

} // verus!
