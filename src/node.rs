use vstd::prelude::*;
use crate::error::OwnedSpan;
use crate::expr::text_is;

verus! {

/// The grammar rules that label parse-tree nodes.
#[derive(PartialEq, Eq, Structural, Clone, Copy, Debug)]
pub enum Rule {
    Statement,
    BlockStmt,
    IfStmt,
    ElseStmt,
    LetStmt,
    GotoStmt,
    Expression,
    Number,
    Str,
    Boolean,
    Identifier,
    Path,
    Operator,
    QuoteDecl,
    NarrationDecl,
    ChoiceDecl,
    QuoteText,
    StringInner,
    Object,
    ObjectEntry,
    ArgumentBody,
    Arguments,
}

/// The names under which the grammar captures sub-nodes.
#[derive(PartialEq, Eq, Structural, Clone, Copy, Debug)]
pub enum Tag {
    Left,
    Operator,
    Right,
    Condition,
    Value,
    Text,
    Key,
}

/// The tag that a capture name stands for, if it stands for one.
pub open spec fn tag_named(name: Seq<char>) -> Option<Tag> {
    if name == "left"@ {
        Some(Tag::Left)
    } else if name == "operator"@ {
        Some(Tag::Operator)
    } else if name == "right"@ {
        Some(Tag::Right)
    } else if name == "condition"@ {
        Some(Tag::Condition)
    } else if name == "value"@ {
        Some(Tag::Value)
    } else if name == "text"@ {
        Some(Tag::Text)
    } else if name == "key"@ {
        Some(Tag::Key)
    } else {
        None
    }
}

impl Tag {
    /// The tag that the grammar writes as `name`.
    pub fn from_name(name: &String) -> (r: Option<Tag>)
        ensures
            r == tag_named(name@),
    {
        if text_is(name, "left") {
            Some(Tag::Left)
        } else if text_is(name, "operator") {
            Some(Tag::Operator)
        } else if text_is(name, "right") {
            Some(Tag::Right)
        } else if text_is(name, "condition") {
            Some(Tag::Condition)
        } else if text_is(name, "value") {
            Some(Tag::Value)
        } else if text_is(name, "text") {
            Some(Tag::Text)
        } else if text_is(name, "key") {
            Some(Tag::Key)
        } else {
            None
        }
    }
}

/// How a sub-node is looked up among a node's children.
#[derive(PartialEq, Eq, Structural, Clone, Copy, Debug)]
pub enum Lookup {
    ByTag(Tag),
    ByRule(Rule),
}

/// A node of the generic parse tree: its rule, the name it was captured under
/// (if any), the text it matched, its span and its children in order.
#[derive(Debug)]
pub struct ParseNode {
    pub rule: Rule,
    pub tag: Option<Tag>,
    pub text: String,
    pub span: OwnedSpan,
    pub children: Vec<ParseNode>,
}

pub open spec fn matches_lookup(n: ParseNode, key: Lookup) -> bool {
    match key {
        Lookup::ByTag(t) => n.tag == Some(t),
        Lookup::ByRule(r) => n.rule == r,
    }
}

/// The index of the first node at or after `from` that the lookup selects.
pub open spec fn first_match(nodes: Seq<ParseNode>, key: Lookup, from: int) -> Option<int>
    decreases nodes.len() - from,
{
    if from < 0 || from >= nodes.len() {
        None
    } else if matches_lookup(nodes[from], key) {
        Some(from)
    } else {
        first_match(nodes, key, from + 1)
    }
}

pub proof fn lemma_first_match_bounds(nodes: Seq<ParseNode>, key: Lookup, from: int)
    ensures
        first_match(nodes, key, from) matches Some(i) ==> from <= i < nodes.len()
            && matches_lookup(nodes[i], key),
    decreases nodes.len() - from,
{
    if 0 <= from < nodes.len() && !matches_lookup(nodes[from], key) {
        lemma_first_match_bounds(nodes, key, from + 1);
    }
}

impl ParseNode {
    /// The index of the first child that the lookup selects.
    pub fn find(&self, key: Lookup) -> (r: Option<usize>)
        ensures
            r matches Some(i) ==> i < self.children@.len(),
            r matches Some(i) ==> first_match(self.children@, key, 0) == Some(i as int),
            r is None ==> first_match(self.children@, key, 0) is None,
    {
        let mut i: usize = 0;
        while i < self.children.len()
            invariant
                0 <= i <= self.children@.len(),
                first_match(self.children@, key, 0) == first_match(self.children@, key, i as int),
            decreases self.children@.len() - i,
        {
            let c = &self.children[i];
            let hit = match key {
                Lookup::ByTag(t) => match c.tag {
                    Some(ct) => ct == t,
                    None => false,
                },
                Lookup::ByRule(r) => c.rule == r,
            };
            if hit {
                return Some(i);
            }
            i = i + 1;
        }
        None
    }
}

} // verus!
