use vstd::prelude::*;
use crate::error::{Error, Expected, OwnedSpan};
use crate::node::{first_match, lemma_first_match_bounds, Lookup, ParseNode, Rule, Tag};

verus! {

/// The closed set of binary operators.
#[derive(PartialEq, Eq, Structural, Clone, Copy, Debug)]
pub enum BinaryOperator {
    Divide,
    Multiply,
    Addition,
    Subtraction,
    GreaterThan,
    GreaterEqual,
    LessThan,
    LessEqual,
    EqualEqual,
    NotEqual,
    And,
    Or,
}

/// The operator that a token spells, if it spells one.
pub open spec fn operator_of(t: Seq<char>) -> Option<BinaryOperator> {
    if t == "/"@ {
        Some(BinaryOperator::Divide)
    } else if t == "*"@ {
        Some(BinaryOperator::Multiply)
    } else if t == "+"@ {
        Some(BinaryOperator::Addition)
    } else if t == "-"@ {
        Some(BinaryOperator::Subtraction)
    } else if t == ">"@ {
        Some(BinaryOperator::GreaterThan)
    } else if t == ">="@ {
        Some(BinaryOperator::GreaterEqual)
    } else if t == "<"@ {
        Some(BinaryOperator::LessThan)
    } else if t == "<="@ {
        Some(BinaryOperator::LessEqual)
    } else if t == "=="@ {
        Some(BinaryOperator::EqualEqual)
    } else if t == "!="@ {
        Some(BinaryOperator::NotEqual)
    } else if t == "&&"@ {
        Some(BinaryOperator::And)
    } else if t == "||"@ {
        Some(BinaryOperator::Or)
    } else {
        None
    }
}

/// Whether a string holds exactly the characters of a literal.
pub fn text_is(t: &String, lit: &str) -> (r: bool)
    ensures
        r == (t@ == lit@),
{
    let s = lit.to_owned();
    t.eq(&s)
}

impl BinaryOperator {
    /// The operator that `token` spells, or `None` for any other text.
    pub fn from_token(token: &String) -> (r: Option<BinaryOperator>)
        ensures
            r == operator_of(token@),
    {
        if text_is(token, "/") {
            Some(BinaryOperator::Divide)
        } else if text_is(token, "*") {
            Some(BinaryOperator::Multiply)
        } else if text_is(token, "+") {
            Some(BinaryOperator::Addition)
        } else if text_is(token, "-") {
            Some(BinaryOperator::Subtraction)
        } else if text_is(token, ">") {
            Some(BinaryOperator::GreaterThan)
        } else if text_is(token, ">=") {
            Some(BinaryOperator::GreaterEqual)
        } else if text_is(token, "<") {
            Some(BinaryOperator::LessThan)
        } else if text_is(token, "<=") {
            Some(BinaryOperator::LessEqual)
        } else if text_is(token, "==") {
            Some(BinaryOperator::EqualEqual)
        } else if text_is(token, "!=") {
            Some(BinaryOperator::NotEqual)
        } else if text_is(token, "&&") {
            Some(BinaryOperator::And)
        } else if text_is(token, "||") {
            Some(BinaryOperator::Or)
        } else {
            None
        }
    }
}

/// The kinds of leaf values.
#[derive(PartialEq, Eq, Structural, Clone, Copy, Debug)]
pub enum PrimitiveKind {
    Number,
    Str,
    Boolean,
    Identifier,
    Path,
}

/// The primitive kind that a rule produces, if it produces one.
pub open spec fn primitive_kind_of(r: Rule) -> Option<PrimitiveKind> {
    match r {
        Rule::Number => Some(PrimitiveKind::Number),
        Rule::Str => Some(PrimitiveKind::Str),
        Rule::Boolean => Some(PrimitiveKind::Boolean),
        Rule::Identifier => Some(PrimitiveKind::Identifier),
        Rule::Path => Some(PrimitiveKind::Path),
        _ => None,
    }
}

/// A literal, an identifier or a path, with the text it was written as.
#[derive(Debug)]
pub struct Primitive {
    pub kind: PrimitiveKind,
    pub text: String,
    pub span: OwnedSpan,
}

#[derive(Debug)]
pub enum Expr {
    Primitive(Primitive),
    Binary(Box<BinaryExpr>),
}

/// A left operand, optionally followed by an operator and a right operand.
#[derive(Debug)]
pub struct BinaryExpr {
    pub left: Expr,
    pub operator: Option<BinaryOperator>,
    pub right: Option<Expr>,
    pub span: OwnedSpan,
}

/// The index of the first child of `n` that the lookup selects.
pub open spec fn child_index(n: ParseNode, key: Lookup) -> Option<int> {
    first_match(n.children@, key, 0)
}

/// The error of lowering `n` to a primitive, if lowering fails.
pub open spec fn primitive_error(n: ParseNode) -> Option<Error> {
    if primitive_kind_of(n.rule) is Some {
        None
    } else {
        Some(Error::InvalidExpression { span: n.span })
    }
}

/// `p` is the primitive that `n` lowers to.
pub open spec fn primitive_built(n: ParseNode, p: Primitive) -> bool {
    primitive_kind_of(n.rule) == Some(p.kind) && p.text == n.text && p.span == n.span
}

/// The error of lowering `n` to an expression, if lowering fails.
pub open spec fn expr_error(n: ParseNode) -> Option<Error>
    decreases n, 1int,
{
    if n.rule == Rule::Expression {
        binary_error(n)
    } else {
        primitive_error(n)
    }
}

/// `e` is the expression that `n` lowers to.
pub open spec fn expr_built(n: ParseNode, e: Expr) -> bool
    decreases n, 1int,
{
    if n.rule == Rule::Expression {
        match e {
            Expr::Binary(b) => binary_built(n, *b),
            _ => false,
        }
    } else {
        match e {
            Expr::Primitive(p) => primitive_built(n, p),
            _ => false,
        }
    }
}

/// The error of lowering `n` to a binary expression, if lowering fails: the
/// first of a missing or malformed left operand, an unknown operator token, a
/// malformed right operand, and an operator without a right operand.
pub open spec fn binary_error(n: ParseNode) -> Option<Error>
    decreases n, 0int,
{
    let cs = n.children@;
    match child_index(n, Lookup::ByTag(Tag::Left)) {
        Some(li) if 0 <= li < cs.len() => {
            if expr_error(cs[li]) is Some {
                expr_error(cs[li])
            } else {
                match child_index(n, Lookup::ByTag(Tag::Operator)) {
                    Some(oi) if 0 <= oi < cs.len() && operator_of(cs[oi].text@) is None => {
                        Some(Error::InvalidBinaryOperator { span: cs[oi].span })
                    },
                    _ => match child_index(n, Lookup::ByTag(Tag::Right)) {
                        Some(ri) if 0 <= ri < cs.len() => expr_error(cs[ri]),
                        _ => if child_index(n, Lookup::ByTag(Tag::Operator)) is Some {
                            Some(Error::Expected { construct: Expected::RightOperand, span: n.span })
                        } else {
                            None
                        },
                    },
                }
            }
        },
        _ => Some(Error::Expected { construct: Expected::ValueExpression, span: n.span }),
    }
}

/// `b` is the binary expression that `n` lowers to.
pub open spec fn binary_built(n: ParseNode, b: BinaryExpr) -> bool
    decreases n, 0int,
{
    let cs = n.children@;
    &&& b.span == n.span
    &&& match child_index(n, Lookup::ByTag(Tag::Left)) {
        Some(li) if 0 <= li < cs.len() => expr_built(cs[li], b.left),
        _ => false,
    }
    &&& b.operator == match child_index(n, Lookup::ByTag(Tag::Operator)) {
        Some(oi) if 0 <= oi < cs.len() => operator_of(cs[oi].text@),
        _ => None,
    }
    &&& match child_index(n, Lookup::ByTag(Tag::Right)) {
        Some(ri) if 0 <= ri < cs.len() => b.right matches Some(r) && expr_built(cs[ri], r),
        _ => b.right is None,
    }
}

/// Each of the twelve operator tokens spells its own operator.
pub proof fn lemma_operator_tokens()
    ensures
        operator_of("/"@) == Some(BinaryOperator::Divide),
        operator_of("*"@) == Some(BinaryOperator::Multiply),
        operator_of("+"@) == Some(BinaryOperator::Addition),
        operator_of("-"@) == Some(BinaryOperator::Subtraction),
        operator_of(">"@) == Some(BinaryOperator::GreaterThan),
        operator_of(">="@) == Some(BinaryOperator::GreaterEqual),
        operator_of("<"@) == Some(BinaryOperator::LessThan),
        operator_of("<="@) == Some(BinaryOperator::LessEqual),
        operator_of("=="@) == Some(BinaryOperator::EqualEqual),
        operator_of("!="@) == Some(BinaryOperator::NotEqual),
        operator_of("&&"@) == Some(BinaryOperator::And),
        operator_of("||"@) == Some(BinaryOperator::Or),
{
    reveal_strlit("/");
    reveal_strlit("*");
    reveal_strlit("+");
    reveal_strlit("-");
    reveal_strlit(">");
    reveal_strlit(">=");
    reveal_strlit("<");
    reveal_strlit("<=");
    reveal_strlit("==");
    reveal_strlit("!=");
    reveal_strlit("&&");
    reveal_strlit("||");
    assert("/"@.len() == 1 && "/"@[0] == '/');
    assert("*"@.len() == 1 && "*"@[0] == '*');
    assert("+"@.len() == 1 && "+"@[0] == '+');
    assert("-"@.len() == 1 && "-"@[0] == '-');
    assert(">"@.len() == 1 && ">"@[0] == '>');
    assert(">="@.len() == 2 && ">="@[0] == '>' && ">="@[1] == '=');
    assert("<"@.len() == 1 && "<"@[0] == '<');
    assert("<="@.len() == 2 && "<="@[0] == '<' && "<="@[1] == '=');
    assert("=="@.len() == 2 && "=="@[0] == '=' && "=="@[1] == '=');
    assert("!="@.len() == 2 && "!="@[0] == '!' && "!="@[1] == '=');
    assert("&&"@.len() == 2 && "&&"@[0] == '&' && "&&"@[1] == '&');
    assert("||"@.len() == 2 && "||"@[0] == '|' && "||"@[1] == '|');
}

/// A binary expression whose operator token is not one of the twelve fails
/// to build, with the error anchored at the operator token.
pub proof fn lemma_unknown_operator_fails(n: ParseNode)
    requires
        child_index(n, Lookup::ByTag(Tag::Left)) matches Some(li) && expr_error(n.children@[li])
            is None,
        child_index(n, Lookup::ByTag(Tag::Operator)) matches Some(oi) && operator_of(
            n.children@[oi].text@,
        ) is None,
    ensures
        binary_error(n) == Some(
            Error::InvalidBinaryOperator {
                span: n.children@[child_index(n, Lookup::ByTag(Tag::Operator))->Some_0].span,
            },
        ),
{
    lemma_first_match_bounds(n.children@, Lookup::ByTag(Tag::Left), 0);
    lemma_first_match_bounds(n.children@, Lookup::ByTag(Tag::Operator), 0);
}

/// A binary expression with an operator but no right operand fails to build,
/// with the error anchored at the binary expression itself.
pub proof fn lemma_operator_without_right_operand(n: ParseNode)
    requires
        child_index(n, Lookup::ByTag(Tag::Left)) matches Some(li) && expr_error(n.children@[li])
            is None,
        child_index(n, Lookup::ByTag(Tag::Operator)) matches Some(oi) && operator_of(
            n.children@[oi].text@,
        ) is Some,
        child_index(n, Lookup::ByTag(Tag::Right)) is None,
    ensures
        binary_error(n) == Some(Error::Expected { construct: Expected::RightOperand, span: n.span }),
{
    lemma_first_match_bounds(n.children@, Lookup::ByTag(Tag::Left), 0);
    lemma_first_match_bounds(n.children@, Lookup::ByTag(Tag::Operator), 0);
}

impl Primitive {
    /// Lowers a literal, identifier or path node.
    pub fn from_node(n: &ParseNode) -> (r: Result<Primitive, Error>)
        ensures
            match r {
                Ok(p) => primitive_error(*n) is None && primitive_built(*n, p),
                Err(e) => primitive_error(*n) == Some(e),
            },
            r matches Ok(p) ==> p.span == n.span,
    {
        let kind = match n.rule {
            Rule::Number => PrimitiveKind::Number,
            Rule::Str => PrimitiveKind::Str,
            Rule::Boolean => PrimitiveKind::Boolean,
            Rule::Identifier => PrimitiveKind::Identifier,
            Rule::Path => PrimitiveKind::Path,
            _ => {
                return Err(Error::InvalidExpression { span: n.span.clone() });
            },
        };
        Ok(Primitive { kind, text: n.text.clone(), span: n.span.clone() })
    }
}

impl Expr {
    /// The span of the node the expression was built from.
    pub open spec fn spec_span(&self) -> OwnedSpan {
        match self {
            Expr::Primitive(p) => p.span,
            Expr::Binary(b) => b.span,
        }
    }

    /// Lowers an expression node: an `expression` node becomes a binary
    /// expression, a leaf node a primitive.
    pub fn from_node(n: &ParseNode) -> (r: Result<Expr, Error>)
        ensures
            match r {
                Ok(e) => expr_error(*n) is None && expr_built(*n, e),
                Err(e) => expr_error(*n) == Some(e),
            },
            r matches Ok(e) ==> e.spec_span() == n.span,
        decreases n, 1int,
    {
        if n.rule == Rule::Expression {
            match BinaryExpr::from_node(n) {
                Ok(b) => Ok(Expr::Binary(Box::new(b))),
                Err(e) => Err(e),
            }
        } else {
            match Primitive::from_node(n) {
                Ok(p) => Ok(Expr::Primitive(p)),
                Err(e) => Err(e),
            }
        }
    }
}

impl BinaryExpr {
    /// Lowers a binary expression node from its `left`, `operator` and `right`
    /// captures. An operator without a right operand is refused.
    pub fn from_node(n: &ParseNode) -> (r: Result<BinaryExpr, Error>)
        ensures
            match r {
                Ok(b) => binary_error(*n) is None && binary_built(*n, b),
                Err(e) => binary_error(*n) == Some(e),
            },
            r matches Ok(b) ==> b.span == n.span,
            r matches Ok(b) ==> (b.operator is Some ==> b.right is Some),
        decreases n, 0int,
    {
        let left = match n.find(Lookup::ByTag(Tag::Left)) {
            Some(li) => match Expr::from_node(&n.children[li]) {
                Ok(e) => e,
                Err(e) => {
                    return Err(e);
                },
            },
            None => {
                return Err(Error::Expected { construct: Expected::ValueExpression, span: n.span.clone() });
            },
        };
        let operator = match n.find(Lookup::ByTag(Tag::Operator)) {
            Some(oi) => match BinaryOperator::from_token(&n.children[oi].text) {
                Some(op) => Some(op),
                None => {
                    return Err(Error::InvalidBinaryOperator { span: n.children[oi].span.clone() });
                },
            },
            None => None,
        };
        let right = match n.find(Lookup::ByTag(Tag::Right)) {
            Some(ri) => match Expr::from_node(&n.children[ri]) {
                Ok(e) => Some(e),
                Err(e) => {
                    return Err(e);
                },
            },
            None => None,
        };
        if operator.is_some() && right.is_none() {
            return Err(Error::Expected { construct: Expected::RightOperand, span: n.span.clone() });
        }
        Ok(BinaryExpr { left, operator, right, span: n.span.clone() })
    }
}

} // verus!
