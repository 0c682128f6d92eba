//! Tokens, and what the next token of a text is.

use vstd::prelude::*;
use vstd::string::*;
use vstd::std_specs::cmp::PartialEqSpecImpl;
use crate::ast::BinaryOperation;
use crate::chars::{digits, is_digit, is_space, is_word, lemma_run, starts_with, strip, words};
use crate::decimal::{parse_digits, push_signed_decimal, signed_decimal, value};
use crate::pattern::find;

verus! {

/// A lexical unit of the source text.
#[derive(Debug)]
pub enum Token {
    Function,
    If,
    Then,
    Else,
    LParen,
    RParen,
    Comma,
    LBrace,
    RBrace,
    Plus,
    Minus,
    Equals,
    Multiply,
    Divide,
    Mod,
    GreaterThan,
    LessThan,
    ID(String),
    Number(i32),
}

/// What a `Token` stands for: the same variants over mathematical text.
pub enum Lexeme {
    Function,
    If,
    Then,
    Else,
    LParen,
    RParen,
    Comma,
    LBrace,
    RBrace,
    Plus,
    Minus,
    Equals,
    Multiply,
    Divide,
    Mod,
    GreaterThan,
    LessThan,
    ID(Seq<char>),
    Number(i32),
}

impl View for Token {
    type V = Lexeme;

    open spec fn view(&self) -> Lexeme {
        match self {
            Token::Function => Lexeme::Function,
            Token::If => Lexeme::If,
            Token::Then => Lexeme::Then,
            Token::Else => Lexeme::Else,
            Token::LParen => Lexeme::LParen,
            Token::RParen => Lexeme::RParen,
            Token::Comma => Lexeme::Comma,
            Token::LBrace => Lexeme::LBrace,
            Token::RBrace => Lexeme::RBrace,
            Token::Plus => Lexeme::Plus,
            Token::Minus => Lexeme::Minus,
            Token::Equals => Lexeme::Equals,
            Token::Multiply => Lexeme::Multiply,
            Token::Divide => Lexeme::Divide,
            Token::Mod => Lexeme::Mod,
            Token::GreaterThan => Lexeme::GreaterThan,
            Token::LessThan => Lexeme::LessThan,
            Token::ID(name) => Lexeme::ID(name@),
            Token::Number(n) => Lexeme::Number(*n),
        }
    }
}

impl PartialEq for Token {
    fn eq(&self, other: &Token) -> (same: bool) {
        match (self, other) {
            (Token::Function, Token::Function) => true,
            (Token::If, Token::If) => true,
            (Token::Then, Token::Then) => true,
            (Token::Else, Token::Else) => true,
            (Token::LParen, Token::LParen) => true,
            (Token::RParen, Token::RParen) => true,
            (Token::Comma, Token::Comma) => true,
            (Token::LBrace, Token::LBrace) => true,
            (Token::RBrace, Token::RBrace) => true,
            (Token::Plus, Token::Plus) => true,
            (Token::Minus, Token::Minus) => true,
            (Token::Equals, Token::Equals) => true,
            (Token::Multiply, Token::Multiply) => true,
            (Token::Divide, Token::Divide) => true,
            (Token::Mod, Token::Mod) => true,
            (Token::GreaterThan, Token::GreaterThan) => true,
            (Token::LessThan, Token::LessThan) => true,
            (Token::ID(a), Token::ID(b)) => *a == *b,
            (Token::Number(a), Token::Number(b)) => *a == *b,
            _ => false,
        }
    }
}

impl PartialEqSpecImpl for Token {
    open spec fn obeys_eq_spec() -> bool {
        true
    }

    /// Two tokens are equal when they stand for the same lexeme.
    open spec fn eq_spec(&self, other: &Token) -> bool {
        self@ == other@
    }
}

/// The token that the single character `c` makes, if it makes one.
pub open spec fn punct(c: char) -> Option<Lexeme> {
    if c == '(' {
        Some(Lexeme::LParen)
    } else if c == ')' {
        Some(Lexeme::RParen)
    } else if c == '{' {
        Some(Lexeme::LBrace)
    } else if c == '}' {
        Some(Lexeme::RBrace)
    } else if c == '=' {
        Some(Lexeme::Equals)
    } else if c == ',' {
        Some(Lexeme::Comma)
    } else if c == '+' {
        Some(Lexeme::Plus)
    } else if c == '-' {
        Some(Lexeme::Minus)
    } else if c == '*' {
        Some(Lexeme::Multiply)
    } else if c == '/' {
        Some(Lexeme::Divide)
    } else if c == '>' {
        Some(Lexeme::GreaterThan)
    } else if c == '<' {
        Some(Lexeme::LessThan)
    } else if c == '%' {
        Some(Lexeme::Mod)
    } else {
        None
    }
}

/// The keyword that `s` begins with, and its length. A keyword is found by its letters
/// alone, whatever follows them.
pub open spec fn keyword(s: Seq<char>) -> Option<(Lexeme, nat)> {
    if "fn"@.is_prefix_of(s) {
        Some((Lexeme::Function, 2))
    } else if "if"@.is_prefix_of(s) {
        Some((Lexeme::If, 2))
    } else if "then"@.is_prefix_of(s) {
        Some((Lexeme::Then, 4))
    } else if "else"@.is_prefix_of(s) {
        Some((Lexeme::Else, 4))
    } else {
        None
    }
}

/// The number or the name that `s` begins with, and its length. A run of digits is a number,
/// and no token at all where the number does not fit an `i32`; otherwise a run of name
/// characters is a name.
pub open spec fn literal(s: Seq<char>) -> Option<(Lexeme, nat)> {
    let d = digits(s);
    let w = words(s);
    if d > 0 {
        if value(s.take(d as int)) <= i32::MAX {
            Some((Lexeme::Number(value(s.take(d as int)) as i32), d))
        } else {
            None
        }
    } else if w > 0 {
        Some((Lexeme::ID(s.take(w as int)), w))
    } else {
        None
    }
}

/// The token at the very start of `s`, and its length: a single character first, then a
/// keyword, then a number or a name.
pub open spec fn classify(s: Seq<char>) -> Option<(Lexeme, nat)> {
    if s.len() > 0 && punct(s[0]) is Some {
        Some((punct(s[0])->0, 1))
    } else if keyword(s) is Some {
        keyword(s)
    } else {
        literal(s)
    }
}

/// The next token of `s`, read behind the whitespace at its start, and the text that is left
/// behind the token.
#[verifier::opaque]
pub open spec fn lex(s: Seq<char>) -> Option<(Lexeme, Seq<char>)> {
    match classify(strip(s)) {
        Some((token, size)) => Some((token, strip(s).skip(size as int))),
        None => None,
    }
}

/// The binary operation that a token names.
pub open spec fn operation(token: Lexeme) -> Option<BinaryOperation> {
    match token {
        Lexeme::Plus => Some(BinaryOperation::Add),
        Lexeme::Minus => Some(BinaryOperation::Subtract),
        Lexeme::Multiply => Some(BinaryOperation::Multiply),
        Lexeme::Divide => Some(BinaryOperation::Divide),
        Lexeme::Mod => Some(BinaryOperation::Mod),
        Lexeme::GreaterThan => Some(BinaryOperation::GreaterThan),
        Lexeme::LessThan => Some(BinaryOperation::LessThan),
        _ => None,
    }
}

/// How a token is spelled in messages.
pub open spec fn spelling(token: Lexeme) -> Seq<char> {
    match token {
        Lexeme::Function => "fn"@,
        Lexeme::If => "if"@,
        Lexeme::Then => "then"@,
        Lexeme::Else => "else"@,
        Lexeme::LParen => "("@,
        Lexeme::RParen => ")"@,
        Lexeme::Comma => ","@,
        Lexeme::LBrace => "{"@,
        Lexeme::RBrace => "}"@,
        Lexeme::Plus => "+"@,
        Lexeme::Minus => "-"@,
        Lexeme::Equals => "="@,
        Lexeme::Multiply => "*"@,
        Lexeme::Divide => "/"@,
        Lexeme::Mod => "%"@,
        Lexeme::GreaterThan => ">"@,
        Lexeme::LessThan => "<"@,
        Lexeme::ID(name) => name,
        Lexeme::Number(n) => signed_decimal(n as int),
    }
}

/// A token is at least one character long and lies inside the text.
pub proof fn lemma_classify_size(s: Seq<char>)
    ensures
        classify(s) matches Some((_, size)) ==> 1 <= size <= s.len(),
{
    reveal_strlit("fn");
    reveal_strlit("if");
    reveal_strlit("then");
    reveal_strlit("else");
    lemma_run(s, |c: char| is_digit(c));
    lemma_run(s, |c: char| is_word(c));
}

/// Reading a token makes the text shorter.
pub proof fn lemma_lex_shrinks(s: Seq<char>)
    ensures
        lex(s) matches Some((_, rest)) ==> rest.len() < s.len(),
{
    reveal(lex);
    lemma_run(s, |c: char| is_space(c));
    lemma_classify_size(strip(s));
}

impl Token {
    /// The token that the single character `c` makes.
    pub fn is_tok(c: char) -> (token: Option<Token>)
        ensures
            match punct(c) {
                Some(t) => token matches Some(found) && found@ == t,
                None => token is None,
            },
    {
        match c {
            '(' => Some(Token::LParen),
            ')' => Some(Token::RParen),
            '{' => Some(Token::LBrace),
            '}' => Some(Token::RBrace),
            '=' => Some(Token::Equals),
            ',' => Some(Token::Comma),
            '+' => Some(Token::Plus),
            '-' => Some(Token::Minus),
            '*' => Some(Token::Multiply),
            '/' => Some(Token::Divide),
            '>' => Some(Token::GreaterThan),
            '<' => Some(Token::LessThan),
            '%' => Some(Token::Mod),
            _ => None,
        }
    }

    /// The keyword that `cur` begins with, and its length.
    pub fn is_word_tok(cur: &str) -> (found: Option<(Token, usize)>)
        ensures
            match keyword(cur@) {
                Some((t, size)) => found matches Some((token, n)) && token@ == t && n == size,
                None => found is None,
            },
    {
        if starts_with(cur, "fn") {
            Some((Token::Function, 2))
        } else if starts_with(cur, "if") {
            Some((Token::If, 2))
        } else if starts_with(cur, "then") {
            Some((Token::Then, 4))
        } else if starts_with(cur, "else") {
            Some((Token::Else, 4))
        } else {
            None
        }
    }

    /// The number or the name that `cur` begins with, and its length.
    pub fn is_regex_tok(cur: &str) -> (found: Option<(Token, usize)>)
        ensures
            match literal(cur@) {
                Some((t, size)) => found matches Some((token, n)) && token@ == t && n == size,
                None => found is None,
            },
    {
        proof {
            lemma_run(cur@, |c: char| is_digit(c));
            lemma_run(cur@, |c: char| is_word(c));
        }
        if let Some((_, end)) = find("^[[:digit:]]+", cur) {
            match parse_digits(cur, end) {
                Some(n) => Some((Token::Number(n), end)),
                None => None,
            }
        } else if let Some((start, end)) = find("^([[:alnum:]]|_)+", cur) {
            let name = String::from_str(cur.substring_char(start, end));
            Some((Token::ID(name), end))
        } else {
            None
        }
    }

    /// The binary operation that this token names.
    pub fn op(&self) -> (found: Option<BinaryOperation>)
        ensures
            found == operation(self@),
    {
        match self {
            Token::Plus => Some(BinaryOperation::Add),
            Token::Minus => Some(BinaryOperation::Subtract),
            Token::Multiply => Some(BinaryOperation::Multiply),
            Token::Divide => Some(BinaryOperation::Divide),
            Token::Mod => Some(BinaryOperation::Mod),
            Token::GreaterThan => Some(BinaryOperation::GreaterThan),
            Token::LessThan => Some(BinaryOperation::LessThan),
            _ => None,
        }
    }

    /// How this token is spelled in messages.
    pub fn text(&self) -> (text: String)
        ensures
            text@ == spelling(self@),
    {
        match self {
            Token::Function => String::from_str("fn"),
            Token::If => String::from_str("if"),
            Token::Then => String::from_str("then"),
            Token::Else => String::from_str("else"),
            Token::LParen => String::from_str("("),
            Token::RParen => String::from_str(")"),
            Token::Comma => String::from_str(","),
            Token::LBrace => String::from_str("{"),
            Token::RBrace => String::from_str("}"),
            Token::Plus => String::from_str("+"),
            Token::Minus => String::from_str("-"),
            Token::Equals => String::from_str("="),
            Token::Multiply => String::from_str("*"),
            Token::Divide => String::from_str("/"),
            Token::Mod => String::from_str("%"),
            Token::GreaterThan => String::from_str(">"),
            Token::LessThan => String::from_str("<"),
            Token::ID(name) => name.clone(),
            Token::Number(n) => {
                let mut text = String::new();
                push_signed_decimal(&mut text, *n);
                assert(Seq::<char>::empty() + signed_decimal(*n as int) =~= signed_decimal(
                    *n as int,
                ));
                text
            },
        }
    }
}

} // verus!
