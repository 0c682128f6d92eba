use exprwasm::parse::{parse, parse_expr};
use exprwasm::{
    BinaryOperation, CompileError, Expected, LexError, ParseError, Token, Type, AST,
};

fn num(x: i32) -> Box<AST> {
    Box::new(AST::lit(x))
}

fn binary(op: BinaryOperation, left: Box<AST>, right: Box<AST>) -> Box<AST> {
    Box::new(AST::BinaryOp(op, left, right))
}

fn param(name: &str) -> (String, Type) {
    (name.to_string(), Type::Int32)
}

fn function(name: &str, params: Vec<(String, Type)>, body: Box<AST>) -> AST {
    AST::Function(name.to_string(), params, Type::Int32, body)
}

fn parsed(text: &str) -> Result<AST, CompileError> {
    let mut cur = text.to_string();
    parse(&mut cur)
}

fn body_of(text: &str) -> AST {
    match parsed(text) {
        Ok(AST::Scope(mut functions)) => {
            assert_eq!(functions.len(), 1);
            match functions.remove(0) {
                AST::Function(_, _, _, body) => *body,
                other => panic!("not a function: {:?}", other),
            }
        }
        other => panic!("not a program: {:?}", other),
    }
}

fn stops(text: &str, expected: Expected, found: Token, near: &str) {
    let mut cur = text.to_string();
    assert_eq!(
        parse(&mut cur),
        Err(CompileError::Parse(ParseError {
            expected,
            found,
            near: near.to_string(),
        }))
    );
    assert_eq!(cur, near);
}

#[test]
fn a_function_of_two_parameters() {
    let expected = AST::Scope(vec![function(
        "f",
        vec![param("a"), param("b")],
        binary(
            BinaryOperation::Add,
            Box::new(AST::Local(0, param("a"))),
            Box::new(AST::Local(1, param("b"))),
        ),
    )]);
    assert_eq!(parsed("fn f(a, b) { a + b }"), Ok(expected));
}

#[test]
fn a_function_without_parameters() {
    let expected = AST::Scope(vec![function("f", vec![], num(1))]);
    assert_eq!(parsed("fn f() { 1 }"), Ok(expected));
}

#[test]
fn parsing_twice_gives_the_same_tree() {
    let text = "fn f(a, b) { if a > b then a - b else g(b, a) % 3 } fn g(x, y) { x * (y / 2) }";
    let first = parsed(text);
    let second = parsed(text);
    assert!(first.is_ok());
    assert_eq!(first, second);
    let broken = "fn f(a { a }";
    assert_eq!(parsed(broken), parsed(broken));
}

#[test]
fn addition_before_multiplication_nests_to_the_right() {
    assert_eq!(
        body_of("fn f() { 2 + 3 * 4 }"),
        *binary(
            BinaryOperation::Add,
            num(2),
            binary(BinaryOperation::Multiply, num(3), num(4)),
        )
    );
}

#[test]
fn multiplication_before_addition_nests_to_the_right() {
    assert_eq!(
        body_of("fn f() { 2 * 3 + 4 }"),
        *binary(
            BinaryOperation::Multiply,
            num(2),
            binary(BinaryOperation::Add, num(3), num(4)),
        )
    );
}

#[test]
fn a_chain_of_all_operators_nests_to_the_right() {
    assert_eq!(
        body_of("fn f() { 1 - 2 / 3 % 4 > 5 < 6 + 7 * 8 }"),
        *binary(
            BinaryOperation::Subtract,
            num(1),
            binary(
                BinaryOperation::Divide,
                num(2),
                binary(
                    BinaryOperation::Mod,
                    num(3),
                    binary(
                        BinaryOperation::GreaterThan,
                        num(4),
                        binary(
                            BinaryOperation::LessThan,
                            num(5),
                            binary(
                                BinaryOperation::Add,
                                num(6),
                                binary(BinaryOperation::Multiply, num(7), num(8)),
                            ),
                        ),
                    ),
                ),
            ),
        )
    );
}

#[test]
fn parentheses_leave_no_node() {
    assert_eq!(body_of("fn f() { ((7)) }"), AST::lit(7));
    assert_eq!(
        body_of("fn f() { 2 * (3 + 4) }"),
        *binary(
            BinaryOperation::Multiply,
            num(2),
            binary(BinaryOperation::Add, num(3), num(4)),
        )
    );
}

#[test]
fn no_operator_follows_a_closing_parenthesis() {
    stops(
        "fn f() { (1 + 2) * 3 }",
        Expected::RBrace,
        Token::Multiply,
        " 3 }",
    );
}

#[test]
fn a_conditional() {
    assert_eq!(
        body_of("fn f() { if 1 then 2 else 3 }"),
        AST::If(num(1), num(2), num(3))
    );
}

#[test]
fn a_conditional_takes_all_that_follows_else() {
    assert_eq!(
        body_of("fn f(a) { if a < 1 then 2 else 3 + a }"),
        AST::If(
            binary(
                BinaryOperation::LessThan,
                Box::new(AST::Local(0, param("a"))),
                num(1),
            ),
            num(2),
            binary(
                BinaryOperation::Add,
                num(3),
                Box::new(AST::Local(0, param("a"))),
            ),
        )
    );
}

#[test]
fn calls_with_and_without_arguments() {
    assert_eq!(
        body_of("fn f(a) { g() }"),
        AST::Call("g".to_string(), vec![])
    );
    assert_eq!(
        body_of("fn f(a) { g(a, 2 + a, h(1)) }"),
        AST::Call(
            "g".to_string(),
            vec![
                AST::Local(0, param("a")),
                *binary(
                    BinaryOperation::Add,
                    num(2),
                    Box::new(AST::Local(0, param("a"))),
                ),
                AST::Call("h".to_string(), vec![AST::lit(1)]),
            ],
        )
    );
}

#[test]
fn a_name_before_a_parenthesis_is_a_call_even_of_a_parameter() {
    assert_eq!(
        body_of("fn f(a) { a(1) }"),
        AST::Call("a".to_string(), vec![AST::lit(1)])
    );
}

#[test]
fn the_first_parameter_of_a_name_wins() {
    assert_eq!(
        body_of("fn f(x, y, x) { x + y }"),
        *binary(
            BinaryOperation::Add,
            Box::new(AST::Local(0, param("x"))),
            Box::new(AST::Local(1, param("y"))),
        )
    );
}

#[test]
fn functions_keep_the_order_of_the_text() {
    let expected = AST::Scope(vec![
        function("a", vec![], num(1)),
        function("b", vec![param("x")], Box::new(AST::Local(0, param("x")))),
        function("c", vec![], Box::new(AST::Call("a".to_string(), vec![]))),
    ]);
    assert_eq!(
        parsed("fn a() { 1 }\nfn b(x) { x }\nfn c() { a() }\n"),
        Ok(expected)
    );
}

#[test]
fn text_behind_the_last_function_is_left_unread() {
    let mut cur = "fn f() { 1 } trailing @ text".to_string();
    assert!(parse(&mut cur).is_ok());
    assert_eq!(cur, " trailing @ text");
    let mut spaced = "fn f() { 1 }  \n".to_string();
    assert!(parse(&mut spaced).is_ok());
    assert_eq!(spaced, "  \n");
}

#[test]
fn whitespace_between_tokens_is_free() {
    assert_eq!(
        parsed("fn f(a,b){a+b}"),
        parsed("  fn\tf ( a ,\n b )\n{\n  a\n +\n b\n}")
    );
}

#[test]
fn a_missing_closing_parenthesis_before_the_body() {
    stops("fn f( { 1 }", Expected::RParen, Token::LBrace, " 1 }");
}

#[test]
fn a_program_begins_with_fn() {
    stops("f() { 1 }", Expected::Function, Token::ID("f".to_string()), "() { 1 }");
}

#[test]
fn a_function_needs_a_name() {
    stops("fn () { 1 }", Expected::Name, Token::LParen, ") { 1 }");
}

#[test]
fn a_parameter_needs_a_name() {
    stops("fn f(a, 1) { a }", Expected::Name, Token::Number(1), ") { a }");
    stops("fn f(a,) { a }", Expected::Name, Token::RParen, " { a }");
}

#[test]
fn a_function_needs_its_parentheses() {
    stops("fn f { 1 }", Expected::LParen, Token::LBrace, " 1 }");
    stops(
        "fn f(a b) { a }",
        Expected::RParen,
        Token::ID("b".to_string()),
        ") { a }",
    );
    stops("fn f(1) { 1 }", Expected::RParen, Token::Number(1), ") { 1 }");
}

#[test]
fn a_function_needs_its_braces() {
    stops("fn f() 1 }", Expected::LBrace, Token::Number(1), " }");
    stops("fn f() { 1 )", Expected::RBrace, Token::RParen, "");
    stops("fn f() { 1 = 2 }", Expected::RBrace, Token::Equals, " 2 }");
}

#[test]
fn a_conditional_needs_then_and_else() {
    stops(
        "fn f() { if 1 2 else 3 }",
        Expected::Then,
        Token::Number(2),
        " else 3 }",
    );
    stops("fn f() { if 1 then 2 }", Expected::Else, Token::RBrace, "");
}

#[test]
fn an_expression_begins_with_a_number_or_a_name() {
    stops("fn f() { }", Expected::Atom, Token::RBrace, "");
    stops("fn f() { 1 + * 2 }", Expected::Atom, Token::Multiply, " 2 }");
    stops("fn f() { g(1,) }", Expected::Atom, Token::RParen, " }");
    stops("fn f() { then }", Expected::Atom, Token::Then, " }");
}

#[test]
fn arguments_are_closed_by_a_parenthesis() {
    stops("fn f() { g(1 2) }", Expected::RParen, Token::Number(2), ") }");
    stops("fn f() { (1 }", Expected::RParen, Token::RBrace, "");
}

#[test]
fn a_name_must_be_a_parameter() {
    stops(
        "fn f(a) { b }",
        Expected::Parameter,
        Token::ID("b".to_string()),
        " }",
    );
    stops(
        "fn f() { 1 } fn g(x) { f }",
        Expected::Parameter,
        Token::ID("f".to_string()),
        " }",
    );
}

#[test]
fn a_text_that_ends_early_has_no_token() {
    let mut cur = "fn f() { 1".to_string();
    assert_eq!(
        parse(&mut cur),
        Err(CompileError::Lex(LexError::NoToken(String::new())))
    );
    assert_eq!(cur, "");
    assert_eq!(
        parsed(""),
        Err(CompileError::Lex(LexError::NoToken(String::new())))
    );
    assert_eq!(
        parsed("fn f(a, "),
        Err(CompileError::Lex(LexError::NoToken(String::new())))
    );
}

#[test]
fn a_character_that_is_no_token_stops_parsing() {
    let mut cur = "fn f() { 1 + # }".to_string();
    assert_eq!(
        parse(&mut cur),
        Err(CompileError::Lex(LexError::NoToken("# }".to_string())))
    );
    assert_eq!(cur, " # }");
}

#[test]
fn a_number_that_does_not_fit_stops_parsing() {
    assert_eq!(
        parsed("fn f() { 4294967296 }"),
        Err(CompileError::Lex(LexError::NoToken(
            "4294967296 }".to_string()
        )))
    );
}

#[test]
fn an_expression_alone_is_parsed_against_the_parameters() {
    let params = vec![param("n")];
    let mut cur = "n * 2 , rest".to_string();
    assert_eq!(
        parse_expr(&mut cur, &params),
        Ok(*binary(
            BinaryOperation::Multiply,
            Box::new(AST::Local(0, param("n"))),
            num(2),
        ))
    );
    assert_eq!(cur, " , rest");
}

#[test]
fn errors_have_messages() {
    let missing = parsed("fn f( { 1 }").unwrap_err();
    assert_eq!(missing.message(), "Expected `)`, found `{` near  1 }");
    let unknown = parsed("fn f(a) { total }").unwrap_err();
    assert_eq!(
        unknown.message(),
        "Expected a parameter, found `total` near  }"
    );
    let nothing = parsed("fn f() { ? }").unwrap_err();
    assert_eq!(nothing.message(), "No token at ? }");
    let atom = parsed("fn f() { 1 + 23 24 }").unwrap_err();
    assert_eq!(atom.message(), "Expected `}`, found `24` near  }");
}

#[test]
fn every_expectation_has_its_words() {
    assert_eq!(Expected::Function.describe(), "`fn`");
    assert_eq!(Expected::Then.describe(), "`then`");
    assert_eq!(Expected::Else.describe(), "`else`");
    assert_eq!(Expected::LParen.describe(), "`(`");
    assert_eq!(Expected::RParen.describe(), "`)`");
    assert_eq!(Expected::LBrace.describe(), "`{`");
    assert_eq!(Expected::RBrace.describe(), "`}`");
    assert_eq!(Expected::Name.describe(), "a name");
    assert_eq!(Expected::Atom.describe(), "a number or a name");
    assert_eq!(Expected::Parameter.describe(), "a parameter");
}
