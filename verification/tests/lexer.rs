use exprwasm::lexer::tok;
use exprwasm::{BinaryOperation, LexError, Token};

fn cursor(text: &str) -> String {
    text.to_string()
}

#[test]
fn single_characters_make_tokens() {
    let mut cur = cursor("(){}=,+-*/><%");
    let expected = vec![
        Token::LParen,
        Token::RParen,
        Token::LBrace,
        Token::RBrace,
        Token::Equals,
        Token::Comma,
        Token::Plus,
        Token::Minus,
        Token::Multiply,
        Token::Divide,
        Token::GreaterThan,
        Token::LessThan,
        Token::Mod,
    ];
    for token in expected {
        assert_eq!(tok(&mut cur, false), Ok(token));
    }
    assert_eq!(cur, "");
}

#[test]
fn keywords_are_read() {
    let mut cur = cursor("fn if then else");
    assert_eq!(tok(&mut cur, false), Ok(Token::Function));
    assert_eq!(tok(&mut cur, false), Ok(Token::If));
    assert_eq!(tok(&mut cur, false), Ok(Token::Then));
    assert_eq!(tok(&mut cur, false), Ok(Token::Else));
    assert_eq!(cur, "");
}

#[test]
fn a_keyword_is_found_by_its_letters_alone() {
    let mut cur = cursor("fnord iffy thence elsewhere");
    assert_eq!(tok(&mut cur, false), Ok(Token::Function));
    assert_eq!(tok(&mut cur, false), Ok(Token::ID("ord".to_string())));
    assert_eq!(tok(&mut cur, false), Ok(Token::If));
    assert_eq!(tok(&mut cur, false), Ok(Token::ID("fy".to_string())));
    assert_eq!(tok(&mut cur, false), Ok(Token::Then));
    assert_eq!(tok(&mut cur, false), Ok(Token::ID("ce".to_string())));
    assert_eq!(tok(&mut cur, false), Ok(Token::Else));
    assert_eq!(tok(&mut cur, false), Ok(Token::ID("where".to_string())));
}

#[test]
fn a_run_of_digits_is_a_number() {
    let mut cur = cursor("123abc");
    assert_eq!(tok(&mut cur, false), Ok(Token::Number(123)));
    assert_eq!(cur, "abc");
    assert_eq!(tok(&mut cur, false), Ok(Token::ID("abc".to_string())));
    assert_eq!(cur, "");
}

#[test]
fn leading_zeros_do_not_count() {
    let mut cur = cursor("007 0");
    assert_eq!(tok(&mut cur, false), Ok(Token::Number(7)));
    assert_eq!(tok(&mut cur, false), Ok(Token::Number(0)));
}

#[test]
fn a_name_holds_letters_digits_and_underscores() {
    let mut cur = cursor("_x1_Y2+rest");
    assert_eq!(tok(&mut cur, false), Ok(Token::ID("_x1_Y2".to_string())));
    assert_eq!(cur, "+rest");
}

#[test]
fn the_largest_number_is_read() {
    let mut cur = cursor("2147483647)");
    assert_eq!(tok(&mut cur, false), Ok(Token::Number(2147483647)));
    assert_eq!(cur, ")");
}

#[test]
fn a_number_that_does_not_fit_is_no_token() {
    let mut cur = cursor(" 2147483648)");
    assert_eq!(
        tok(&mut cur, false),
        Err(LexError::NoToken("2147483648)".to_string()))
    );
    assert_eq!(cur, " 2147483648)");
    let mut long = cursor("99999999999999999999999999");
    assert_eq!(
        tok(&mut long, false),
        Err(LexError::NoToken("99999999999999999999999999".to_string()))
    );
}

#[test]
fn whitespace_before_a_token_is_skipped() {
    let mut cur = cursor(" \t\r\n\u{a0}\u{2003}\u{3000}x y");
    assert_eq!(tok(&mut cur, false), Ok(Token::ID("x".to_string())));
    assert_eq!(cur, " y");
}

#[test]
fn whitespace_behind_the_last_token_stays() {
    let mut cur = cursor("x  ");
    assert_eq!(tok(&mut cur, false), Ok(Token::ID("x".to_string())));
    assert_eq!(cur, "  ");
    assert_eq!(tok(&mut cur, false), Err(LexError::NoToken(String::new())));
    assert_eq!(cur, "  ");
}

#[test]
fn the_end_of_the_text_is_no_token() {
    let mut cur = cursor("");
    assert_eq!(tok(&mut cur, false), Err(LexError::NoToken(String::new())));
    assert_eq!(tok(&mut cur, true), Err(LexError::NoToken(String::new())));
    assert_eq!(cur, "");
}

#[test]
fn an_unsupported_character_is_no_token() {
    let mut cur = cursor("  @ 1");
    assert_eq!(tok(&mut cur, false), Err(LexError::NoToken("@ 1".to_string())));
    assert_eq!(cur, "  @ 1");
}

#[test]
fn letters_outside_ascii_are_no_part_of_a_name() {
    let mut cur = cursor("x\u{e9}y");
    assert_eq!(tok(&mut cur, false), Ok(Token::ID("x".to_string())));
    assert_eq!(cur, "\u{e9}y");
    assert_eq!(
        tok(&mut cur, false),
        Err(LexError::NoToken("\u{e9}y".to_string()))
    );
    let mut digits = cursor("\u{663}");
    assert_eq!(
        tok(&mut digits, false),
        Err(LexError::NoToken("\u{663}".to_string()))
    );
}

#[test]
fn text_outside_ascii_behind_a_token_is_kept() {
    let mut cur = cursor("  12 \u{4e16}\u{754c}");
    assert_eq!(tok(&mut cur, false), Ok(Token::Number(12)));
    assert_eq!(cur, " \u{4e16}\u{754c}");
}

#[test]
fn a_peek_leaves_the_cursor_as_it_is() {
    let mut cur = cursor("  foo(1)");
    assert_eq!(tok(&mut cur, true), Ok(Token::ID("foo".to_string())));
    assert_eq!(cur, "  foo(1)");
}

#[test]
fn peeks_do_not_change_what_is_read_next() {
    let mut peeked = cursor(" 42 + x");
    for _ in 0..5 {
        assert_eq!(tok(&mut peeked, true), Ok(Token::Number(42)));
    }
    let mut fresh = cursor(" 42 + x");
    assert_eq!(tok(&mut peeked, false), tok(&mut fresh, false));
    assert_eq!(peeked, fresh);
    assert_eq!(peeked, " + x");
}

#[test]
fn an_operator_comes_before_a_name() {
    let mut cur = cursor("-x");
    assert_eq!(tok(&mut cur, false), Ok(Token::Minus));
    assert_eq!(tok(&mut cur, false), Ok(Token::ID("x".to_string())));
}

#[test]
fn tokens_name_their_operations() {
    assert_eq!(Token::Plus.op(), Some(BinaryOperation::Add));
    assert_eq!(Token::Minus.op(), Some(BinaryOperation::Subtract));
    assert_eq!(Token::Multiply.op(), Some(BinaryOperation::Multiply));
    assert_eq!(Token::Divide.op(), Some(BinaryOperation::Divide));
    assert_eq!(Token::Mod.op(), Some(BinaryOperation::Mod));
    assert_eq!(Token::GreaterThan.op(), Some(BinaryOperation::GreaterThan));
    assert_eq!(Token::LessThan.op(), Some(BinaryOperation::LessThan));
    assert_eq!(Token::Equals.op(), None);
    assert_eq!(Token::LParen.op(), None);
    assert_eq!(Token::Number(1).op(), None);
}

#[test]
fn tokens_are_equal_by_what_they_hold() {
    assert!(Token::ID("a".to_string()) == Token::ID("a".to_string()));
    assert!(Token::ID("a".to_string()) != Token::ID("b".to_string()));
    assert!(Token::Number(1) != Token::Number(2));
    assert!(Token::Number(1) != Token::ID("1".to_string()));
    assert!(Token::Then != Token::Else);
}

#[test]
fn tokens_are_spelled_in_messages() {
    assert_eq!(Token::Function.text(), "fn");
    assert_eq!(Token::RBrace.text(), "}");
    assert_eq!(Token::Mod.text(), "%");
    assert_eq!(Token::ID("total".to_string()).text(), "total");
    assert_eq!(Token::Number(305).text(), "305");
    assert_eq!(Token::Number(-2147483648).text(), "-2147483648");
}

#[test]
fn single_character_classes() {
    assert_eq!(Token::is_tok('('), Some(Token::LParen));
    assert_eq!(Token::is_tok('%'), Some(Token::Mod));
    assert_eq!(Token::is_tok('a'), None);
    assert_eq!(Token::is_tok('\0'), None);
    assert_eq!(Token::is_word_tok("then1"), Some((Token::Then, 4)));
    assert_eq!(Token::is_word_tok("the"), None);
    assert_eq!(Token::is_regex_tok("12ab"), Some((Token::Number(12), 2)));
    assert_eq!(
        Token::is_regex_tok("ab12 "),
        Some((Token::ID("ab12".to_string()), 4))
    );
    assert_eq!(Token::is_regex_tok(" ab"), None);
}

#[test]
fn characters_at_the_edges_of_their_classes() {
    for c in ['/', ':', '@', '[', '`', '{', '~', '\u{7f}', '\u{aa}', '\u{b2}', '\u{660}', '\u{ff10}'] {
        let mut cur = format!("a{}", c);
        assert_eq!(tok(&mut cur, false), Ok(Token::ID("a".to_string())));
        assert_eq!(cur, c.to_string());
        let mut num = format!("7{}", c);
        assert_eq!(tok(&mut num, false), Ok(Token::Number(7)));
        assert_eq!(num, c.to_string());
    }
    for c in ['0', '9', 'a', 'z', 'A', 'Z', '_'] {
        let mut cur = format!("x{}y+", c);
        assert_eq!(tok(&mut cur, false), Ok(Token::ID(format!("x{}y", c))));
        assert_eq!(cur, "+");
    }
    for c in ['0', '9'] {
        let mut cur = format!("1{}x", c);
        let expected = format!("1{}", c).parse::<i32>().unwrap();
        assert_eq!(tok(&mut cur, false), Ok(Token::Number(expected)));
        assert_eq!(cur, "x");
    }
}

#[test]
fn every_whitespace_character_is_skipped() {
    let spaces = [
        '\u{9}', '\u{a}', '\u{b}', '\u{c}', '\u{d}', ' ', '\u{85}', '\u{a0}', '\u{1680}',
        '\u{2000}', '\u{2005}', '\u{200a}', '\u{2028}', '\u{2029}', '\u{202f}', '\u{205f}',
        '\u{3000}',
    ];
    for c in spaces {
        assert!(c.is_whitespace());
        let mut cur = format!("{}x", c);
        assert_eq!(tok(&mut cur, false), Ok(Token::ID("x".to_string())));
    }
    for c in ['\u{8}', '\u{e}', '\u{1f}', '\u{200b}', '\u{2060}', '\u{feff}'] {
        assert!(!c.is_whitespace());
        let mut cur = format!("{}x", c);
        assert_eq!(tok(&mut cur, false), Err(LexError::NoToken(format!("{}x", c))));
    }
}
