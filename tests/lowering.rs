use fabulist::decl::{ArgumentBodyDfn, QuoteDecl};
use fabulist::error::{Error, Expected, OwnedSpan};
use fabulist::expr::{BinaryExpr, BinaryOperator, Expr, PrimitiveKind};
use fabulist::node::{ParseNode, Rule, Tag};
use fabulist::stmt::{BlockStmt, ElseClause, GotoStmt, IfStmt, LetStmt, Stmt};

fn node(src: &str, rule: Rule, tag: Option<Tag>, start: usize, end: usize, children: Vec<ParseNode>) -> ParseNode {
    ParseNode {
        rule,
        tag,
        text: src[start..end].to_string(),
        span: OwnedSpan { input: src.to_string(), start, end },
        children,
    }
}

fn locate(src: &str, pat: &str, from: usize) -> (usize, usize) {
    let start = from + src[from..].find(pat).unwrap();
    (start, start + pat.len())
}

fn leaf(src: &str, rule: Rule, tag: Option<Tag>, pat: &str, from: usize) -> ParseNode {
    let (s, e) = locate(src, pat, from);
    node(src, rule, tag, s, e, vec![])
}

fn same_span(a: &OwnedSpan, b: &OwnedSpan) -> bool {
    a.input == b.input && a.start == b.start && a.end == b.end
}

/// `left op right`, where both operands are the first and last characters.
fn binary_node(src: &str, op: &str) -> ParseNode {
    let n = src.len();
    node(src, Rule::Expression, None, 0, n, vec![
        node(src, Rule::Number, Some(Tag::Left), 0, 1, vec![]),
        leaf(src, Rule::Operator, Some(Tag::Operator), op, 1),
        node(src, Rule::Number, Some(Tag::Right), n - 1, n, vec![]),
    ])
}

fn quote_node(src: &str, rule: Rule) -> ParseNode {
    let n = src.len();
    let open = src.find('"').unwrap();
    node(src, rule, None, 0, n, vec![node(src, Rule::QuoteText, Some(Tag::Text), open, n, vec![
        node(src, Rule::StringInner, None, open + 1, n - 1, vec![]),
    ])])
}

fn block_node(src: &str, from: usize) -> ParseNode {
    let (s, e) = locate(src, "{}", from);
    node(src, Rule::BlockStmt, None, s, e, vec![])
}

fn if_node(src: &str, from: usize) -> ParseNode {
    let (s, _) = locate(src, "if true {}", from);
    let mut children = vec![
        leaf(src, Rule::Boolean, Some(Tag::Condition), "true", s),
        block_node(src, s),
    ];
    let after = s + "if true {}".len();
    let mut end = after;
    if src[after..].starts_with(" else ") {
        let else_start = after + 1;
        let body = else_start + "else ".len();
        let inner = if src[body..].starts_with("if") { if_node(src, body) } else { block_node(src, body) };
        end = inner.span.end;
        children.push(node(src, Rule::ElseStmt, None, else_start, end, vec![inner]));
    }
    node(src, Rule::IfStmt, None, s, end, children)
}

fn let_node(src: &str, from: usize) -> ParseNode {
    let (s, _) = locate(src, "let key = \"value\";", from);
    node(src, Rule::LetStmt, None, s, s + "let key = \"value\";".len(), vec![
        leaf(src, Rule::Identifier, None, "key", s),
        leaf(src, Rule::Str, Some(Tag::Value), "\"value\"", s),
    ])
}

fn goto_node(src: &str, from: usize) -> ParseNode {
    let (s, e) = locate(src, "goto module_1::part_1;", from);
    node(src, Rule::GotoStmt, None, s, e, vec![leaf(src, Rule::Path, None, "module_1::part_1", s)])
}

fn statement(inner: ParseNode) -> ParseNode {
    let (src, s, e) = (inner.span.input.clone(), inner.span.start, inner.span.end);
    node(&src, Rule::Statement, None, s, e, vec![inner])
}

#[test]
fn parses_quote_elem() {
    for (src, rule, text) in [
        (r#"> "I'm an example quote""#, Rule::QuoteDecl, "I'm an example quote"),
        (r#"* "I'm an example narration""#, Rule::NarrationDecl, "I'm an example narration"),
        (r#"- "I'm an example choice""#, Rule::ChoiceDecl, "I'm an example choice"),
    ] {
        let n = quote_node(src, rule);
        let q: QuoteDecl = QuoteDecl::from_node(&n).unwrap();
        assert_eq!(q.text, text);
        assert!(q.properties.is_none());
        assert!(same_span(&q.span, &n.span));
    }
}

#[test]
fn parses_argument_body() {
    let src = r#"("string", 5, true)"#;
    let n = node(src, Rule::ArgumentBody, None, 0, src.len(), vec![node(src, Rule::Arguments, None, 1, src.len() - 1, vec![
        leaf(src, Rule::Str, None, "\"string\"", 0),
        leaf(src, Rule::Number, None, "5", 0),
        leaf(src, Rule::Boolean, None, "true", 0),
    ])]);
    let a: ArgumentBodyDfn = ArgumentBodyDfn::from_node(&n).unwrap();
    let args = a.arguments.unwrap();
    assert_eq!(args.len(), 3);
    assert!(matches!(&args[1], Expr::Primitive(p) if p.kind == PrimitiveKind::Number && p.text == "5"));
    assert!(matches!(&args[2], Expr::Primitive(p) if p.kind == PrimitiveKind::Boolean));
}

#[test]
fn parses_binary_expr() {
    for (src, op, expected) in [
        ("5 + 2", "+", BinaryOperator::Addition),
        ("5/ 2", "/", BinaryOperator::Divide),
        ("5 *2", "*", BinaryOperator::Multiply),
        ("5== 2", "==", BinaryOperator::EqualEqual),
    ] {
        let n = binary_node(src, op);
        let b: BinaryExpr = BinaryExpr::from_node(&n).unwrap();
        assert_eq!(b.operator, Some(expected));
        assert!(b.right.is_some());
        assert!(same_span(&b.span, &n.span));
        assert!(matches!(Expr::from_node(&n), Ok(Expr::Binary(_))));
    }
}

#[test]
fn parses_block_stmt() {
    let src = r#"{
                let key = "value";
                goto module_1::part_1;
                if true {} else if true {} else {}
            }"#;
    let first_if = src.find("if true").unwrap();
    let n = node(src, Rule::BlockStmt, None, 0, src.len(), vec![
        statement(let_node(src, 0)),
        statement(goto_node(src, 0)),
        statement(if_node(src, first_if)),
    ]);
    let b: BlockStmt = BlockStmt::from_node(&n).unwrap();
    assert_eq!(b.statements.len(), 3);
    assert!(matches!(&b.statements[0], Stmt::Let(_)));
    assert!(matches!(&b.statements[1], Stmt::Goto(_)));
    match &b.statements[2] {
        Stmt::If(s) => match s.else_stmt.as_deref() {
            Some(ElseClause::If(inner)) => {
                assert!(matches!(inner.else_stmt.as_deref(), Some(ElseClause::Block(_))))
            },
            _ => panic!("expected an else-if chain"),
        },
        _ => panic!("expected an if statement"),
    }
    assert!(same_span(&b.span, &n.span));
}

#[test]
fn parses_if_stmt() {
    let n = if_node("if true {}", 0);
    let s: IfStmt = IfStmt::from_node(&n).unwrap();
    assert!(s.else_stmt.is_none());
    assert!(same_span(&s.span, &n.span));

    let n = if_node("if true {} else {}", 0);
    let s: IfStmt = IfStmt::from_node(&n).unwrap();
    assert!(matches!(s.else_stmt.as_deref(), Some(ElseClause::Block(_))));
    assert_eq!(s.span.end, "if true {} else {}".len());
}

#[test]
fn parses_let_stmt() {
    let n = let_node("let key = \"value\";", 0);
    let s: LetStmt = LetStmt::from_node(&n).unwrap();
    assert_eq!(s.identifier.text, "key");
    assert!(matches!(&s.value, Expr::Primitive(p) if p.kind == PrimitiveKind::Str && p.text == "\"value\""));
    assert!(same_span(&s.span, &n.span));
}

#[test]
fn parses_goto_stmt() {
    let n = goto_node("goto module_1::part_1;", 0);
    let s: GotoStmt = GotoStmt::from_node(&n).unwrap();
    assert_eq!(s.path.kind, PrimitiveKind::Path);
    assert_eq!(s.path.text, "module_1::part_1");
    assert!(same_span(&s.span, &n.span));
}

#[test]
fn every_operator_token_builds_its_variant() {
    let table = [
        ("/", BinaryOperator::Divide),
        ("*", BinaryOperator::Multiply),
        ("+", BinaryOperator::Addition),
        ("-", BinaryOperator::Subtraction),
        (">", BinaryOperator::GreaterThan),
        (">=", BinaryOperator::GreaterEqual),
        ("<", BinaryOperator::LessThan),
        ("<=", BinaryOperator::LessEqual),
        ("==", BinaryOperator::EqualEqual),
        ("!=", BinaryOperator::NotEqual),
        ("&&", BinaryOperator::And),
        ("||", BinaryOperator::Or),
    ];
    for (op, expected) in table {
        let src = format!("1 {} 2", op);
        let b = BinaryExpr::from_node(&binary_node(&src, op)).unwrap();
        assert_eq!(b.operator, Some(expected));
        assert_eq!(BinaryOperator::from_token(&op.to_string()), Some(expected));
    }
}

#[test]
fn unknown_operator_fails_at_the_token() {
    let src = "1 % 2";
    match BinaryExpr::from_node(&binary_node(src, "%")) {
        Err(Error::InvalidBinaryOperator { span }) => {
            assert_eq!((span.start, span.end), (2, 3));
        },
        _ => panic!("expected an invalid operator"),
    }
    assert_eq!(BinaryOperator::from_token(&"=".to_string()), None);
    assert_eq!(BinaryOperator::from_token(&"".to_string()), None);
}

#[test]
fn operator_without_right_operand_fails() {
    let src = "5 +";
    let n = node(src, Rule::Expression, None, 0, 3, vec![
        node(src, Rule::Number, Some(Tag::Left), 0, 1, vec![]),
        node(src, Rule::Operator, Some(Tag::Operator), 2, 3, vec![]),
    ]);
    let err = BinaryExpr::from_node(&n).unwrap_err();
    assert!(matches!(err, Error::Expected { construct: Expected::RightOperand, .. }));
    assert!(same_span(err.span(), &n.span));
    assert_eq!(err.message(), "Expected a right operand expression");
}

#[test]
fn left_operand_alone_builds() {
    let src = "5";
    let n = node(src, Rule::Expression, None, 0, 1, vec![node(src, Rule::Number, Some(Tag::Left), 0, 1, vec![])]);
    let b = BinaryExpr::from_node(&n).unwrap();
    assert!(b.operator.is_none() && b.right.is_none());
}

#[test]
fn missing_left_operand_fails() {
    let src = "+ 2";
    let n = node(src, Rule::Expression, None, 0, 3, vec![node(src, Rule::Operator, Some(Tag::Operator), 0, 1, vec![])]);
    let err = BinaryExpr::from_node(&n).unwrap_err();
    assert!(matches!(err, Error::Expected { construct: Expected::ValueExpression, .. }));
    assert_eq!(err.message(), "Expected a value expression");
}

#[test]
fn if_without_block_fails() {
    let src = "if true";
    let n = node(src, Rule::IfStmt, None, 0, 7, vec![leaf(src, Rule::Boolean, Some(Tag::Condition), "true", 0)]);
    let err = IfStmt::from_node(&n).unwrap_err();
    assert!(matches!(err, Error::Expected { construct: Expected::BlockStatement, .. }));
    let n = node(src, Rule::IfStmt, None, 0, 7, vec![]);
    let err = IfStmt::from_node(&n).unwrap_err();
    assert!(matches!(err, Error::Expected { construct: Expected::ConditionExpression, .. }));
}

#[test]
fn first_malformed_statement_fails_the_block() {
    let src = "{ let ; goto ; }";
    let n = node(src, Rule::BlockStmt, None, 0, src.len(), vec![
        leaf(src, Rule::LetStmt, None, "let ;", 0),
        leaf(src, Rule::GotoStmt, None, "goto ;", 0),
    ]);
    let err = BlockStmt::from_node(&n).unwrap_err();
    assert!(matches!(err, Error::Expected { construct: Expected::Identifier, .. }));
    assert_eq!((err.span().start, err.span().end), (2, 7));
}

#[test]
fn invalid_statement_and_expression_rules_fail() {
    let src = "x";
    let n = node(src, Rule::Operator, None, 0, 1, vec![]);
    assert!(matches!(Stmt::from_node(&n), Err(Error::InvalidStatement { .. })));
    assert!(matches!(Expr::from_node(&n), Err(Error::InvalidExpression { .. })));
    let goto = node(src, Rule::GotoStmt, None, 0, 1, vec![]);
    assert!(matches!(GotoStmt::from_node(&goto), Err(Error::Expected { construct: Expected::PathExpression, .. })));
}

#[test]
fn else_without_branch_fails() {
    let src = "else";
    let n = node(src, Rule::ElseStmt, None, 0, 4, vec![]);
    assert!(matches!(ElseClause::from_node(&n), Err(Error::Expected { construct: Expected::IfOrBlockStatement, .. })));
}

#[test]
fn quote_errors_and_properties() {
    let src = r#"> "hi" { mood: 5 }"#;
    let obj_start = src.find('{').unwrap();
    let entry = node(src, Rule::ObjectEntry, None, obj_start + 2, src.len() - 2, vec![
        leaf(src, Rule::Identifier, Some(Tag::Key), "mood", 0),
        leaf(src, Rule::Number, Some(Tag::Value), "5", 0),
    ]);
    let n = node(src, Rule::QuoteDecl, None, 0, src.len(), vec![
        node(src, Rule::QuoteText, Some(Tag::Text), 2, 6, vec![node(src, Rule::StringInner, None, 3, 5, vec![])]),
        node(src, Rule::Object, None, obj_start, src.len(), vec![entry]),
    ]);
    let q = QuoteDecl::from_node(&n).unwrap();
    assert_eq!(q.text, "hi");
    let props = q.properties.unwrap();
    assert_eq!(props.properties.len(), 1);
    assert_eq!(props.properties[0].key, "mood");

    let bare = node(src, Rule::QuoteDecl, None, 0, 6, vec![node(src, Rule::QuoteText, Some(Tag::Text), 2, 6, vec![])]);
    assert!(matches!(QuoteDecl::from_node(&bare), Err(Error::Expected { construct: Expected::StringValue, .. })));
    let empty = node(src, Rule::QuoteDecl, None, 0, 1, vec![]);
    assert!(matches!(QuoteDecl::from_node(&empty), Err(Error::Expected { construct: Expected::TextExpression, .. })));
}

#[test]
fn capture_names_map_to_tags() {
    assert_eq!(Tag::from_name(&"left".to_string()), Some(Tag::Left));
    assert_eq!(Tag::from_name(&"condition".to_string()), Some(Tag::Condition));
    assert_eq!(Tag::from_name(&"key".to_string()), Some(Tag::Key));
    assert_eq!(Tag::from_name(&"Left".to_string()), None);
}

#[test]
fn diagnostics_render_their_messages() {
    let span = || OwnedSpan { input: "x".to_string(), start: 0, end: 1 };
    let cases = [
        (Expected::ValueExpression, "Expected a value expression"),
        (Expected::BoundValue, "Expected value expression"),
        (Expected::RightOperand, "Expected a right operand expression"),
        (Expected::ConditionExpression, "Expected condition expression"),
        (Expected::BlockStatement, "Expected block statement"),
        (Expected::IfOrBlockStatement, "Expected an `if` or `block` statement"),
        (Expected::Identifier, "Expected an identifier"),
        (Expected::PathExpression, "Expected path expression"),
        (Expected::TextExpression, "Expected text expression"),
        (Expected::StringValue, "Expected string value"),
        (Expected::ObjectKey, "Expected property key"),
    ];
    for (construct, text) in cases {
        assert_eq!(Error::Expected { construct, span: span() }.message(), text);
    }
    assert_eq!(Error::InvalidBinaryOperator { span: span() }.message(), "Invalid binary operator");
    assert_eq!(Error::InvalidStatement { span: span() }.message(), "Invalid statement");
    assert_eq!(Error::InvalidExpression { span: span() }.message(), "Invalid expression");
}

#[test]
fn statements_convert_into_stmt() {
    let g = GotoStmt::from_node(&goto_node("goto module_1::part_1;", 0)).unwrap();
    assert!(matches!(Stmt::from(g), Stmt::Goto(ref s) if s.path.text == "module_1::part_1"));
    let l = LetStmt::from_node(&let_node("let key = \"value\";", 0)).unwrap();
    assert!(matches!(Stmt::from(l), Stmt::Let(_)));
    let i = IfStmt::from_node(&if_node("if true {}", 0)).unwrap();
    assert!(matches!(Stmt::from(i), Stmt::If(_)));
    let b = BlockStmt::from_node(&block_node("{}", 0)).unwrap();
    let s: Stmt = b.into();
    assert!(matches!(s, Stmt::Block(ref b) if b.statements.is_empty()));
}

#[test]
fn let_without_value_fails() {
    let src = "let key;";
    let n = node(src, Rule::LetStmt, None, 0, src.len(), vec![leaf(src, Rule::Identifier, None, "key", 0)]);
    let err = LetStmt::from_node(&n).unwrap_err();
    assert!(matches!(err, Error::Expected { construct: Expected::BoundValue, .. }));
    assert!(same_span(err.span(), &n.span));
    assert_eq!(err.message(), "Expected value expression");
    let n = node(src, Rule::LetStmt, None, 0, src.len(), vec![]);
    assert_eq!(LetStmt::from_node(&n).unwrap_err().message(), "Expected an identifier");
}
