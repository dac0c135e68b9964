use vstd::prelude::*;
use crate::error::{Error, Expected, OwnedSpan};
use crate::expr::{child_index, expr_built, expr_error, Expr};
use crate::node::{Lookup, ParseNode, Rule, Tag};

verus! {

/// One `key: value` entry of a property object.
#[derive(Debug)]
pub struct Property {
    pub key: String,
    pub value: Expr,
    pub span: OwnedSpan,
}

/// A property bag attached to a declaration.
#[derive(Debug)]
pub struct Object {
    pub properties: Vec<Property>,
    pub span: OwnedSpan,
}

/// A quoted text with optional properties. Quotes, narrations and choice
/// options share this shape; only the rule they come from tells them apart.
#[derive(Debug)]
pub struct QuoteDecl {
    pub text: String,
    pub properties: Option<Object>,
    pub span: OwnedSpan,
}

/// A parenthesised, possibly empty, list of argument expressions.
#[derive(Debug)]
pub struct ArgumentBodyDfn {
    pub arguments: Option<Vec<Expr>>,
    pub span: OwnedSpan,
}

/// The first error among the expressions that the children of `n` from `i`
/// on lower to.
pub open spec fn exprs_error_from(n: ParseNode, i: int) -> Option<Error>
    decreases n.children@.len() - i,
{
    if i < 0 || i >= n.children@.len() {
        None
    } else if expr_error(n.children@[i]) is Some {
        expr_error(n.children@[i])
    } else {
        exprs_error_from(n, i + 1)
    }
}

/// `es` are the expressions that the children of `n` lower to.
pub open spec fn exprs_built(n: ParseNode, es: Seq<Expr>) -> bool {
    &&& es.len() == n.children@.len()
    &&& forall|j: int| 0 <= j < es.len() ==> expr_built(#[trigger] n.children@[j], es[j])
}

/// The error of lowering `n` to a property, if lowering fails.
pub open spec fn property_error(n: ParseNode) -> Option<Error> {
    let cs = n.children@;
    match child_index(n, Lookup::ByTag(Tag::Key)) {
        Some(ki) if 0 <= ki < cs.len() => match child_index(n, Lookup::ByTag(Tag::Value)) {
            Some(vi) if 0 <= vi < cs.len() => expr_error(cs[vi]),
            _ => Some(Error::Expected { construct: Expected::ValueExpression, span: n.span }),
        },
        _ => Some(Error::Expected { construct: Expected::ObjectKey, span: n.span }),
    }
}

/// `p` is the property that `n` lowers to.
pub open spec fn property_built(n: ParseNode, p: Property) -> bool {
    let cs = n.children@;
    &&& p.span == n.span
    &&& match child_index(n, Lookup::ByTag(Tag::Key)) {
        Some(ki) if 0 <= ki < cs.len() => p.key == cs[ki].text,
        _ => false,
    }
    &&& match child_index(n, Lookup::ByTag(Tag::Value)) {
        Some(vi) if 0 <= vi < cs.len() => expr_built(cs[vi], p.value),
        _ => false,
    }
}

/// The first error among the properties that the children of `n` from `i`
/// on lower to.
pub open spec fn properties_error_from(n: ParseNode, i: int) -> Option<Error>
    decreases n.children@.len() - i,
{
    if i < 0 || i >= n.children@.len() {
        None
    } else if property_error(n.children@[i]) is Some {
        property_error(n.children@[i])
    } else {
        properties_error_from(n, i + 1)
    }
}

/// The error of lowering `n` to an object, if lowering fails.
pub open spec fn object_error(n: ParseNode) -> Option<Error> {
    properties_error_from(n, 0)
}

/// `o` is the object that `n` lowers to: one property per child, in order.
pub open spec fn object_built(n: ParseNode, o: Object) -> bool {
    &&& o.span == n.span
    &&& o.properties@.len() == n.children@.len()
    &&& forall|j: int|
        0 <= j < o.properties@.len() ==> property_built(#[trigger] n.children@[j], o.properties@[j])
}

/// The error of lowering `n` to a quote, if lowering fails.
pub open spec fn quote_error(n: ParseNode) -> Option<Error> {
    let cs = n.children@;
    match child_index(n, Lookup::ByTag(Tag::Text)) {
        Some(ti) if 0 <= ti < cs.len() => if cs[ti].children@.len() == 0 {
            Some(Error::Expected { construct: Expected::StringValue, span: n.span })
        } else {
            match child_index(n, Lookup::ByRule(Rule::Object)) {
                Some(oi) if 0 <= oi < cs.len() => object_error(cs[oi]),
                _ => None,
            }
        },
        _ => Some(Error::Expected { construct: Expected::TextExpression, span: n.span }),
    }
}

/// `q` is the quote that `n` lowers to: its text is that of the first child
/// of the `text` capture.
pub open spec fn quote_built(n: ParseNode, q: QuoteDecl) -> bool {
    let cs = n.children@;
    &&& q.span == n.span
    &&& match child_index(n, Lookup::ByTag(Tag::Text)) {
        Some(ti) if 0 <= ti < cs.len() => cs[ti].children@.len() > 0 && q.text == cs[ti].children@[0].text,
        _ => false,
    }
    &&& match child_index(n, Lookup::ByRule(Rule::Object)) {
        Some(oi) if 0 <= oi < cs.len() => q.properties matches Some(o) && object_built(cs[oi], o),
        _ => q.properties is None,
    }
}

/// The error of lowering `n` to an argument body, if lowering fails.
pub open spec fn argument_body_error(n: ParseNode) -> Option<Error> {
    let cs = n.children@;
    match child_index(n, Lookup::ByRule(Rule::Arguments)) {
        Some(ai) if 0 <= ai < cs.len() => exprs_error_from(cs[ai], 0),
        _ => None,
    }
}

/// `a` is the argument body that `n` lowers to.
pub open spec fn argument_body_built(n: ParseNode, a: ArgumentBodyDfn) -> bool {
    let cs = n.children@;
    &&& a.span == n.span
    &&& match child_index(n, Lookup::ByRule(Rule::Arguments)) {
        Some(ai) if 0 <= ai < cs.len() => a.arguments matches Some(v) && exprs_built(cs[ai], v@),
        _ => a.arguments is None,
    }
}

impl Property {
    /// Lowers an object entry from its `key` and `value` captures.
    pub fn from_node(n: &ParseNode) -> (r: Result<Property, Error>)
        ensures
            match r {
                Ok(p) => property_error(*n) is None && property_built(*n, p),
                Err(e) => property_error(*n) == Some(e),
            },
            r matches Ok(p) ==> p.span == n.span,
    {
        let key = match n.find(Lookup::ByTag(Tag::Key)) {
            Some(ki) => n.children[ki].text.clone(),
            None => {
                return Err(Error::Expected { construct: Expected::ObjectKey, span: n.span.clone() });
            },
        };
        let value = match n.find(Lookup::ByTag(Tag::Value)) {
            Some(vi) => match Expr::from_node(&n.children[vi]) {
                Ok(e) => e,
                Err(e) => {
                    return Err(e);
                },
            },
            None => {
                return Err(Error::Expected { construct: Expected::ValueExpression, span: n.span.clone() });
            },
        };
        Ok(Property { key, value, span: n.span.clone() })
    }
}

impl Object {
    /// Lowers a property object: every child is an entry, lowered in order.
    pub fn from_node(n: &ParseNode) -> (r: Result<Object, Error>)
        ensures
            match r {
                Ok(o) => object_error(*n) is None && object_built(*n, o),
                Err(e) => object_error(*n) == Some(e),
            },
            r matches Ok(o) ==> o.span == n.span,
    {
        let mut properties: Vec<Property> = Vec::new();
        let mut i: usize = 0;
        while i < n.children.len()
            invariant
                0 <= i <= n.children@.len(),
                properties@.len() == i,
                properties_error_from(*n, 0) == properties_error_from(*n, i as int),
                forall|j: int| 0 <= j < i ==> property_built(#[trigger] n.children@[j], properties@[j]),
            decreases n.children@.len() - i,
        {
            match Property::from_node(&n.children[i]) {
                Ok(p) => {
                    properties.push(p);
                },
                Err(e) => {
                    return Err(e);
                },
            }
            i = i + 1;
        }
        Ok(Object { properties, span: n.span.clone() })
    }
}

impl QuoteDecl {
    /// Lowers a quote, narration or choice declaration from its `text`
    /// capture and its optional property object.
    pub fn from_node(n: &ParseNode) -> (r: Result<QuoteDecl, Error>)
        ensures
            match r {
                Ok(q) => quote_error(*n) is None && quote_built(*n, q),
                Err(e) => quote_error(*n) == Some(e),
            },
            r matches Ok(q) ==> q.span == n.span,
    {
        let text = match n.find(Lookup::ByTag(Tag::Text)) {
            Some(ti) => if n.children[ti].children.len() > 0 {
                n.children[ti].children[0].text.clone()
            } else {
                return Err(Error::Expected { construct: Expected::StringValue, span: n.span.clone() });
            },
            None => {
                return Err(Error::Expected { construct: Expected::TextExpression, span: n.span.clone() });
            },
        };
        let properties = match n.find(Lookup::ByRule(Rule::Object)) {
            Some(oi) => match Object::from_node(&n.children[oi]) {
                Ok(o) => Some(o),
                Err(e) => {
                    return Err(e);
                },
            },
            None => None,
        };
        Ok(QuoteDecl { text, properties, span: n.span.clone() })
    }
}

impl ArgumentBodyDfn {
    /// Lowers an argument body: the children of its `arguments` node, if it
    /// has one, are lowered in order to expressions.
    pub fn from_node(n: &ParseNode) -> (r: Result<ArgumentBodyDfn, Error>)
        ensures
            match r {
                Ok(a) => argument_body_error(*n) is None && argument_body_built(*n, a),
                Err(e) => argument_body_error(*n) == Some(e),
            },
            r matches Ok(a) ==> a.span == n.span,
    {
        match n.find(Lookup::ByRule(Rule::Arguments)) {
            Some(ai) => {
                let args = &n.children[ai];
                let mut arguments: Vec<Expr> = Vec::new();
                let mut i: usize = 0;
                while i < args.children.len()
                    invariant
                        ai < n.children@.len(),
                        *args == n.children@[ai as int],
                        child_index(*n, Lookup::ByRule(Rule::Arguments)) == Some(ai as int),
                        0 <= i <= args.children@.len(),
                        arguments@.len() == i,
                        exprs_error_from(*args, 0) == exprs_error_from(*args, i as int),
                        forall|j: int| 0 <= j < i ==> expr_built(#[trigger] args.children@[j], arguments@[j]),
                    decreases args.children@.len() - i,
                {
                    match Expr::from_node(&args.children[i]) {
                        Ok(e) => {
                            arguments.push(e);
                        },
                        Err(e) => {
                            return Err(e);
                        },
                    }
                    i = i + 1;
                }
                Ok(ArgumentBodyDfn { arguments: Some(arguments), span: n.span.clone() })
            },
            None => Ok(ArgumentBodyDfn { arguments: None, span: n.span.clone() }),
        }
    }
}

} // verus!
