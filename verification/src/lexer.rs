//! Reading the next token from the cursor.

use vstd::prelude::*;
use vstd::string::*;
use crate::chars::{count_spaces, strip};
use crate::error::{Failure, LexError};
use crate::grammar::Parsed;
use crate::token::{lemma_classify_size, lex, Lexeme, Token};

verus! {

/// What reading a token from the text `s` gives: the token, and the text that is then in
/// the cursor. With `peek` that is `s` itself; without, the text behind the token. Where no
/// token starts, the text stays as it is and the failure holds it without the whitespace at
/// its start.
pub open spec fn read(s: Seq<char>, peek: bool) -> Parsed<Lexeme> {
    match lex(s) {
        Some((token, rest)) => (
            Ok(token),
            if peek {
                s
            } else {
                rest
            },
        ),
        None => (Err(Failure::NoToken(strip(s))), s),
    }
}

/// Reads the next token of `cur`, behind the whitespace at its start. With `peek` the cursor
/// stays as it is; without, the whitespace and the token leave it.
pub fn tok(cur: &mut String, peek: bool) -> (res: Result<Token, LexError>)
    ensures
        final(cur)@ == read(old(cur)@, peek).1,
        match read(old(cur)@, peek).0 {
            Ok(token) => res matches Ok(found) && found@ == token,
            Err(e) => res matches Err(err) && err@ == e,
        },
{
    let len = cur.as_str().unicode_len();
    let start = count_spaces(cur.as_str());
    let rest = cur.as_str().substring_char(start, len);
    let rest_len = len - start;
    proof {
        reveal(lex);
        assert(rest@ =~= strip(cur@));
        lemma_classify_size(rest@);
    }
    let single = if rest_len > 0 {
        Token::is_tok(rest.get_char(0))
    } else {
        None
    };
    let (token, size) = match single {
        Some(token) => (token, 1),
        None => match Token::is_word_tok(rest) {
            Some(found) => found,
            None => match Token::is_regex_tok(rest) {
                Some(found) => found,
                None => {
                    return Err(LexError::NoToken(String::from_str(rest)));
                },
            },
        },
    };
    if !peek {
        let next = String::from_str(rest.substring_char(size, rest_len));
        assert(next@ =~= rest@.skip(size as int));
        *cur = next;
    }
    Ok(token)
}

} // verus!
