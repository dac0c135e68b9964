use vstd::prelude::*;
use crate::error::{Error, Expected, OwnedSpan};
use crate::expr::{child_index, expr_built, expr_error, primitive_built, primitive_error, Expr, Primitive};
use crate::node::{Lookup, ParseNode, Rule, Tag};

verus! {

/// A braced sequence of statements.
#[derive(Debug)]
pub struct BlockStmt {
    pub statements: Vec<Stmt>,
    pub span: OwnedSpan,
}

/// A conditional with an optional `else` branch.
#[derive(Debug)]
pub struct IfStmt {
    pub condition: Expr,
    pub block_stmt: BlockStmt,
    pub else_stmt: Option<Box<ElseClause>>,
    pub span: OwnedSpan,
}

/// A binding of a value to an identifier.
#[derive(Debug)]
pub struct LetStmt {
    pub identifier: Primitive,
    pub value: Expr,
    pub span: OwnedSpan,
}

/// A jump to another part of the story.
#[derive(Debug)]
pub struct GotoStmt {
    pub path: Primitive,
    pub span: OwnedSpan,
}

/// What follows `else`: another conditional, which chains, or a block.
#[derive(Debug)]
pub enum ElseClause {
    If(IfStmt),
    Block(BlockStmt),
}

#[derive(Debug)]
pub enum Stmt {
    Block(Box<BlockStmt>),
    If(Box<IfStmt>),
    Let(Box<LetStmt>),
    Goto(Box<GotoStmt>),
}

/// The error of lowering `n` to a statement, if lowering fails.
pub open spec fn stmt_error(n: ParseNode) -> Option<Error>
    decreases n, 2int, 0int,
{
    match n.rule {
        Rule::Statement => if n.children@.len() > 0 {
            stmt_error(n.children@[0])
        } else {
            Some(Error::InvalidStatement { span: n.span })
        },
        Rule::BlockStmt => block_error(n),
        Rule::IfStmt => if_error(n),
        Rule::LetStmt => let_error(n),
        Rule::GotoStmt => goto_error(n),
        _ => Some(Error::InvalidStatement { span: n.span }),
    }
}

/// The first error among the statements of `n` from the child `i` on.
pub open spec fn stmts_error_from(n: ParseNode, i: int) -> Option<Error>
    decreases n, 0int, n.children@.len() - i,
{
    if i < 0 || i >= n.children@.len() {
        None
    } else if stmt_error(n.children@[i]) is Some {
        stmt_error(n.children@[i])
    } else {
        stmts_error_from(n, i + 1)
    }
}

/// The error of lowering `n` to a block, if lowering fails: that of its first
/// malformed statement.
pub open spec fn block_error(n: ParseNode) -> Option<Error>
    decreases n, 1int, 0int,
{
    stmts_error_from(n, 0)
}

/// The error of lowering `n` to a conditional, if lowering fails.
pub open spec fn if_error(n: ParseNode) -> Option<Error>
    decreases n, 1int, 0int,
{
    let cs = n.children@;
    match child_index(n, Lookup::ByTag(Tag::Condition)) {
        Some(ci) if 0 <= ci < cs.len() => if expr_error(cs[ci]) is Some {
            expr_error(cs[ci])
        } else {
            match child_index(n, Lookup::ByRule(Rule::BlockStmt)) {
                Some(bi) if 0 <= bi < cs.len() => if block_error(cs[bi]) is Some {
                    block_error(cs[bi])
                } else {
                    match child_index(n, Lookup::ByRule(Rule::ElseStmt)) {
                        Some(ei) if 0 <= ei < cs.len() => else_error(cs[ei]),
                        _ => None,
                    }
                },
                _ => Some(Error::Expected { construct: Expected::BlockStatement, span: n.span }),
            }
        },
        _ => Some(Error::Expected { construct: Expected::ConditionExpression, span: n.span }),
    }
}

/// The error of lowering `n` to an `else` clause, if lowering fails.
pub open spec fn else_error(n: ParseNode) -> Option<Error>
    decreases n, 1int, 0int,
{
    let cs = n.children@;
    match child_index(n, Lookup::ByRule(Rule::IfStmt)) {
        Some(ii) if 0 <= ii < cs.len() => if_error(cs[ii]),
        _ => match child_index(n, Lookup::ByRule(Rule::BlockStmt)) {
            Some(bi) if 0 <= bi < cs.len() => block_error(cs[bi]),
            _ => Some(Error::Expected { construct: Expected::IfOrBlockStatement, span: n.span }),
        },
    }
}

/// The error of lowering `n` to a binding, if lowering fails.
pub open spec fn let_error(n: ParseNode) -> Option<Error> {
    let cs = n.children@;
    match child_index(n, Lookup::ByRule(Rule::Identifier)) {
        Some(ii) if 0 <= ii < cs.len() => if primitive_error(cs[ii]) is Some {
            primitive_error(cs[ii])
        } else {
            match child_index(n, Lookup::ByTag(Tag::Value)) {
                Some(vi) if 0 <= vi < cs.len() => expr_error(cs[vi]),
                _ => Some(Error::Expected { construct: Expected::BoundValue, span: n.span }),
            }
        },
        _ => Some(Error::Expected { construct: Expected::Identifier, span: n.span }),
    }
}

/// The error of lowering `n` to a jump, if lowering fails.
pub open spec fn goto_error(n: ParseNode) -> Option<Error> {
    let cs = n.children@;
    match child_index(n, Lookup::ByRule(Rule::Path)) {
        Some(pi) if 0 <= pi < cs.len() => primitive_error(cs[pi]),
        _ => Some(Error::Expected { construct: Expected::PathExpression, span: n.span }),
    }
}

/// `s` is the statement that `n` lowers to.
pub open spec fn stmt_built(n: ParseNode, s: Stmt) -> bool
    decreases n, 2int, 0int,
{
    match n.rule {
        Rule::Statement => n.children@.len() > 0 && stmt_built(n.children@[0], s),
        Rule::BlockStmt => s matches Stmt::Block(b) && block_built(n, *b),
        Rule::IfStmt => s matches Stmt::If(b) && if_built(n, *b),
        Rule::LetStmt => s matches Stmt::Let(b) && let_built(n, *b),
        Rule::GotoStmt => s matches Stmt::Goto(b) && goto_built(n, *b),
        _ => false,
    }
}

/// The statements `ss` are those that the children of `n` from `i` on lower to.
pub open spec fn stmts_built_from(n: ParseNode, ss: Seq<Stmt>, i: int) -> bool
    decreases n, 0int, n.children@.len() - i,
{
    if i < 0 || i >= n.children@.len() {
        true
    } else {
        stmt_built(n.children@[i], ss[i]) && stmts_built_from(n, ss, i + 1)
    }
}

/// `b` is the block that `n` lowers to.
pub open spec fn block_built(n: ParseNode, b: BlockStmt) -> bool
    decreases n, 1int, 0int,
{
    &&& b.span == n.span
    &&& b.statements@.len() == n.children@.len()
    &&& stmts_built_from(n, b.statements@, 0)
}

/// `s` is the conditional that `n` lowers to.
pub open spec fn if_built(n: ParseNode, s: IfStmt) -> bool
    decreases n, 1int, 0int,
{
    let cs = n.children@;
    &&& s.span == n.span
    &&& match child_index(n, Lookup::ByTag(Tag::Condition)) {
        Some(ci) if 0 <= ci < cs.len() => expr_built(cs[ci], s.condition),
        _ => false,
    }
    &&& match child_index(n, Lookup::ByRule(Rule::BlockStmt)) {
        Some(bi) if 0 <= bi < cs.len() => block_built(cs[bi], s.block_stmt),
        _ => false,
    }
    &&& match child_index(n, Lookup::ByRule(Rule::ElseStmt)) {
        Some(ei) if 0 <= ei < cs.len() => s.else_stmt matches Some(e) && else_built(cs[ei], *e),
        _ => s.else_stmt is None,
    }
}

/// `c` is the `else` clause that `n` lowers to.
pub open spec fn else_built(n: ParseNode, c: ElseClause) -> bool
    decreases n, 1int, 0int,
{
    let cs = n.children@;
    match child_index(n, Lookup::ByRule(Rule::IfStmt)) {
        Some(ii) if 0 <= ii < cs.len() => c matches ElseClause::If(s) && if_built(cs[ii], s),
        _ => match child_index(n, Lookup::ByRule(Rule::BlockStmt)) {
            Some(bi) if 0 <= bi < cs.len() => c matches ElseClause::Block(b) && block_built(cs[bi], b),
            _ => false,
        },
    }
}

/// `s` is the binding that `n` lowers to.
pub open spec fn let_built(n: ParseNode, s: LetStmt) -> bool {
    let cs = n.children@;
    &&& s.span == n.span
    &&& match child_index(n, Lookup::ByRule(Rule::Identifier)) {
        Some(ii) if 0 <= ii < cs.len() => primitive_built(cs[ii], s.identifier),
        _ => false,
    }
    &&& match child_index(n, Lookup::ByTag(Tag::Value)) {
        Some(vi) if 0 <= vi < cs.len() => expr_built(cs[vi], s.value),
        _ => false,
    }
}

/// `s` is the jump that `n` lowers to.
pub open spec fn goto_built(n: ParseNode, s: GotoStmt) -> bool {
    let cs = n.children@;
    &&& s.span == n.span
    &&& match child_index(n, Lookup::ByRule(Rule::Path)) {
        Some(pi) if 0 <= pi < cs.len() => primitive_built(cs[pi], s.path),
        _ => false,
    }
}

proof fn lemma_stmts_built_from(n: ParseNode, ss: Seq<Stmt>, i: int)
    requires
        0 <= i,
        forall|j: int| i <= j < n.children@.len() ==> stmt_built(#[trigger] n.children@[j], ss[j]),
    ensures
        stmts_built_from(n, ss, i),
    decreases n.children@.len() - i,
{
    if i < n.children@.len() {
        lemma_stmts_built_from(n, ss, i + 1);
    }
}

impl From<BlockStmt> for Stmt {
    fn from(value: BlockStmt) -> (r: Stmt)
        ensures
            r matches Stmt::Block(b) && *b == value,
    {
        Stmt::Block(Box::new(value))
    }
}

impl vstd::std_specs::convert::FromSpecImpl<BlockStmt> for Stmt {
    open spec fn obeys_from_spec() -> bool {
        true
    }

    open spec fn from_spec(v: BlockStmt) -> Stmt {
        Stmt::Block(Box::new(v))
    }
}

impl From<IfStmt> for Stmt {
    fn from(value: IfStmt) -> (r: Stmt)
        ensures
            r matches Stmt::If(b) && *b == value,
    {
        Stmt::If(Box::new(value))
    }
}

impl vstd::std_specs::convert::FromSpecImpl<IfStmt> for Stmt {
    open spec fn obeys_from_spec() -> bool {
        true
    }

    open spec fn from_spec(v: IfStmt) -> Stmt {
        Stmt::If(Box::new(v))
    }
}

impl From<LetStmt> for Stmt {
    fn from(value: LetStmt) -> (r: Stmt)
        ensures
            r matches Stmt::Let(b) && *b == value,
    {
        Stmt::Let(Box::new(value))
    }
}

impl vstd::std_specs::convert::FromSpecImpl<LetStmt> for Stmt {
    open spec fn obeys_from_spec() -> bool {
        true
    }

    open spec fn from_spec(v: LetStmt) -> Stmt {
        Stmt::Let(Box::new(v))
    }
}

impl From<GotoStmt> for Stmt {
    fn from(value: GotoStmt) -> (r: Stmt)
        ensures
            r matches Stmt::Goto(b) && *b == value,
    {
        Stmt::Goto(Box::new(value))
    }
}

impl vstd::std_specs::convert::FromSpecImpl<GotoStmt> for Stmt {
    open spec fn obeys_from_spec() -> bool {
        true
    }

    open spec fn from_spec(v: GotoStmt) -> Stmt {
        Stmt::Goto(Box::new(v))
    }
}

impl Stmt {
    /// The span of the node the statement was built from.
    pub open spec fn spec_span(&self) -> OwnedSpan {
        match self {
            Stmt::Block(b) => b.span,
            Stmt::If(b) => b.span,
            Stmt::Let(b) => b.span,
            Stmt::Goto(b) => b.span,
        }
    }

    /// Lowers a statement node, dispatching on its rule; a `statement` node
    /// is lowered through its first child.
    pub fn from_node(n: &ParseNode) -> (r: Result<Stmt, Error>)
        ensures
            match r {
                Ok(s) => stmt_error(*n) is None && stmt_built(*n, s),
                Err(e) => stmt_error(*n) == Some(e),
            },
            n.rule != Rule::Statement ==> (r matches Ok(s) ==> s.spec_span() == n.span),
        decreases n, 2int, 0int,
    {
        match n.rule {
            Rule::Statement => if n.children.len() > 0 {
                Stmt::from_node(&n.children[0])
            } else {
                Err(Error::InvalidStatement { span: n.span.clone() })
            },
            Rule::BlockStmt => match BlockStmt::from_node(n) {
                Ok(b) => Ok(Stmt::Block(Box::new(b))),
                Err(e) => Err(e),
            },
            Rule::IfStmt => match IfStmt::from_node(n) {
                Ok(b) => Ok(Stmt::If(Box::new(b))),
                Err(e) => Err(e),
            },
            Rule::LetStmt => match LetStmt::from_node(n) {
                Ok(b) => Ok(Stmt::Let(Box::new(b))),
                Err(e) => Err(e),
            },
            Rule::GotoStmt => match GotoStmt::from_node(n) {
                Ok(b) => Ok(Stmt::Goto(Box::new(b))),
                Err(e) => Err(e),
            },
            _ => Err(Error::InvalidStatement { span: n.span.clone() }),
        }
    }
}

impl BlockStmt {
    /// Lowers a block node: every child is a statement, lowered in order; the
    /// first one that fails fails the block.
    pub fn from_node(n: &ParseNode) -> (r: Result<BlockStmt, Error>)
        ensures
            match r {
                Ok(b) => block_error(*n) is None && block_built(*n, b),
                Err(e) => block_error(*n) == Some(e),
            },
            r matches Ok(b) ==> b.span == n.span,
        decreases n, 1int, 0int,
    {
        let mut statements: Vec<Stmt> = Vec::new();
        let mut i: usize = 0;
        while i < n.children.len()
            invariant
                0 <= i <= n.children@.len(),
                statements@.len() == i,
                stmts_error_from(*n, 0) == stmts_error_from(*n, i as int),
                forall|j: int| 0 <= j < i ==> stmt_built(#[trigger] n.children@[j], statements@[j]),
            decreases n.children@.len() - i,
        {
            match Stmt::from_node(&n.children[i]) {
                Ok(s) => {
                    statements.push(s);
                },
                Err(e) => {
                    return Err(e);
                },
            }
            i = i + 1;
        }
        proof {
            lemma_stmts_built_from(*n, statements@, 0);
        }
        Ok(BlockStmt { statements, span: n.span.clone() })
    }
}

impl IfStmt {
    /// Lowers a conditional from its `condition` capture, its block and its
    /// optional `else` clause.
    pub fn from_node(n: &ParseNode) -> (r: Result<IfStmt, Error>)
        ensures
            match r {
                Ok(s) => if_error(*n) is None && if_built(*n, s),
                Err(e) => if_error(*n) == Some(e),
            },
            r matches Ok(s) ==> s.span == n.span,
        decreases n, 1int, 0int,
    {
        let condition = match n.find(Lookup::ByTag(Tag::Condition)) {
            Some(ci) => match Expr::from_node(&n.children[ci]) {
                Ok(e) => e,
                Err(e) => {
                    return Err(e);
                },
            },
            None => {
                return Err(Error::Expected { construct: Expected::ConditionExpression, span: n.span.clone() });
            },
        };
        let block_stmt = match n.find(Lookup::ByRule(Rule::BlockStmt)) {
            Some(bi) => match BlockStmt::from_node(&n.children[bi]) {
                Ok(b) => b,
                Err(e) => {
                    return Err(e);
                },
            },
            None => {
                return Err(Error::Expected { construct: Expected::BlockStatement, span: n.span.clone() });
            },
        };
        let else_stmt = match n.find(Lookup::ByRule(Rule::ElseStmt)) {
            Some(ei) => match ElseClause::from_node(&n.children[ei]) {
                Ok(c) => Some(Box::new(c)),
                Err(e) => {
                    return Err(e);
                },
            },
            None => None,
        };
        Ok(IfStmt { condition, block_stmt, else_stmt, span: n.span.clone() })
    }
}

impl ElseClause {
    /// Lowers an `else` clause: a chained conditional if there is one, else a
    /// block.
    pub fn from_node(n: &ParseNode) -> (r: Result<ElseClause, Error>)
        ensures
            match r {
                Ok(c) => else_error(*n) is None && else_built(*n, c),
                Err(e) => else_error(*n) == Some(e),
            },
        decreases n, 1int, 0int,
    {
        match n.find(Lookup::ByRule(Rule::IfStmt)) {
            Some(ii) => match IfStmt::from_node(&n.children[ii]) {
                Ok(s) => Ok(ElseClause::If(s)),
                Err(e) => Err(e),
            },
            None => match n.find(Lookup::ByRule(Rule::BlockStmt)) {
                Some(bi) => match BlockStmt::from_node(&n.children[bi]) {
                    Ok(b) => Ok(ElseClause::Block(b)),
                    Err(e) => Err(e),
                },
                None => Err(Error::Expected { construct: Expected::IfOrBlockStatement, span: n.span.clone() }),
            },
        }
    }
}

impl LetStmt {
    /// Lowers a binding from its identifier and its `value` capture.
    pub fn from_node(n: &ParseNode) -> (r: Result<LetStmt, Error>)
        ensures
            match r {
                Ok(s) => let_error(*n) is None && let_built(*n, s),
                Err(e) => let_error(*n) == Some(e),
            },
            r matches Ok(s) ==> s.span == n.span,
    {
        let identifier = match n.find(Lookup::ByRule(Rule::Identifier)) {
            Some(ii) => match Primitive::from_node(&n.children[ii]) {
                Ok(p) => p,
                Err(e) => {
                    return Err(e);
                },
            },
            None => {
                return Err(Error::Expected { construct: Expected::Identifier, span: n.span.clone() });
            },
        };
        let value = match n.find(Lookup::ByTag(Tag::Value)) {
            Some(vi) => match Expr::from_node(&n.children[vi]) {
                Ok(e) => e,
                Err(e) => {
                    return Err(e);
                },
            },
            None => {
                return Err(Error::Expected { construct: Expected::BoundValue, span: n.span.clone() });
            },
        };
        Ok(LetStmt { identifier, value, span: n.span.clone() })
    }
}

impl GotoStmt {
    /// Lowers a jump from its path.
    pub fn from_node(n: &ParseNode) -> (r: Result<GotoStmt, Error>)
        ensures
            match r {
                Ok(s) => goto_error(*n) is None && goto_built(*n, s),
                Err(e) => goto_error(*n) == Some(e),
            },
            r matches Ok(s) ==> s.span == n.span,
    {
        let path = match n.find(Lookup::ByRule(Rule::Path)) {
            Some(pi) => match Primitive::from_node(&n.children[pi]) {
                Ok(p) => p,
                Err(e) => {
                    return Err(e);
                },
            },
            None => {
                return Err(Error::Expected { construct: Expected::PathExpression, span: n.span.clone() });
            },
        };
        Ok(GotoStmt { path, span: n.span.clone() })
    }
}

} // verus!
