use vstd::prelude::*;

verus! {

/// A region of source text. The span keeps its own copy of the text, so that
/// diagnostics can be built without borrowing the source buffer. `start` and
/// `end` are byte offsets into `input`.
#[derive(Debug)]
pub struct OwnedSpan {
    pub input: String,
    pub start: usize,
    pub end: usize,
}

impl Clone for OwnedSpan {
    fn clone(&self) -> (r: Self)
        ensures
            r == *self,
    {
        OwnedSpan { input: self.input.clone(), start: self.start, end: self.end }
    }
}

/// The construct whose absence a diagnostic reports.
#[derive(PartialEq, Eq, Structural, Clone, Copy, Debug)]
pub enum Expected {
    ValueExpression,
    BoundValue,
    RightOperand,
    ConditionExpression,
    BlockStatement,
    IfOrBlockStatement,
    Identifier,
    PathExpression,
    TextExpression,
    StringValue,
    ObjectKey,
}

/// A construction failure, anchored at the span of the malformed node.
#[derive(Debug)]
pub enum Error {
    /// A required sub-construct is missing.
    Expected { construct: Expected, span: OwnedSpan },
    /// An operator token outside the closed set of binary operators.
    InvalidBinaryOperator { span: OwnedSpan },
    /// A node whose rule does not start a statement.
    InvalidStatement { span: OwnedSpan },
    /// A node whose rule does not start an expression.
    InvalidExpression { span: OwnedSpan },
}

impl Error {
    pub open spec fn spec_span(&self) -> OwnedSpan {
        match self {
            Error::Expected { span, .. } => *span,
            Error::InvalidBinaryOperator { span } => *span,
            Error::InvalidStatement { span } => *span,
            Error::InvalidExpression { span } => *span,
        }
    }

    /// The span the diagnostic is anchored at.
    pub fn span(&self) -> (r: &OwnedSpan)
        ensures
            *r == self.spec_span(),
    {
        match self {
            Error::Expected { span, .. } => span,
            Error::InvalidBinaryOperator { span } => span,
            Error::InvalidStatement { span } => span,
            Error::InvalidExpression { span } => span,
        }
    }

    /// The text of the diagnostic's message.
    pub open spec fn message_of(&self) -> Seq<char> {
        match self {
            Error::Expected { construct, .. } => match construct {
                Expected::ValueExpression => "Expected a value expression"@,
                Expected::BoundValue => "Expected value expression"@,
                Expected::RightOperand => "Expected a right operand expression"@,
                Expected::ConditionExpression => "Expected condition expression"@,
                Expected::BlockStatement => "Expected block statement"@,
                Expected::IfOrBlockStatement => "Expected an `if` or `block` statement"@,
                Expected::Identifier => "Expected an identifier"@,
                Expected::PathExpression => "Expected path expression"@,
                Expected::TextExpression => "Expected text expression"@,
                Expected::StringValue => "Expected string value"@,
                Expected::ObjectKey => "Expected property key"@,
            },
            Error::InvalidBinaryOperator { .. } => "Invalid binary operator"@,
            Error::InvalidStatement { .. } => "Invalid statement"@,
            Error::InvalidExpression { .. } => "Invalid expression"@,
        }
    }

    /// The human-readable message of the diagnostic.
    pub fn message(&self) -> (r: String)
        ensures
            r@ == self.message_of(),
    {
        let text: &str = match self {
            Error::Expected { construct, .. } => match construct {
                Expected::ValueExpression => "Expected a value expression",
                Expected::BoundValue => "Expected value expression",
                Expected::RightOperand => "Expected a right operand expression",
                Expected::ConditionExpression => "Expected condition expression",
                Expected::BlockStatement => "Expected block statement",
                Expected::IfOrBlockStatement => "Expected an `if` or `block` statement",
                Expected::Identifier => "Expected an identifier",
                Expected::PathExpression => "Expected path expression",
                Expected::TextExpression => "Expected text expression",
                Expected::StringValue => "Expected string value",
                Expected::ObjectKey => "Expected property key",
            },
            Error::InvalidBinaryOperator { .. } => "Invalid binary operator",
            Error::InvalidStatement { .. } => "Invalid statement",
            Error::InvalidExpression { .. } => "Invalid expression",
        };
        text.to_owned()
    }
}

} // verus!
