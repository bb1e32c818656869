use vstd::prelude::*;

verus! {

/// One lexical token of a controller source file. The kinds that the
/// attribute and signature scanners read are named; everything else is
/// `Other`, with its text.
pub enum Token {
    /// `#`
    Pound,
    /// `[`
    OpenBracket,
    /// `]`
    CloseBracket,
    /// `(`
    OpenParen,
    /// `)`
    CloseParen,
    /// `,`
    Comma,
    /// `:`
    Colon,
    /// `::`
    PathSep,
    /// `<`
    Lt,
    /// `>`
    Gt,
    /// `_`
    Underscore,
    /// An identifier or keyword.
    Ident(String),
    /// A string literal, with its contents unquoted.
    StrLit(String),
    /// Any other literal, as written.
    OtherLit(String),
    /// Any other token, as written.
    Other(String),
}

/// Whether `t` is the identifier or keyword `s`.
pub open spec fn is_word(t: Token, s: Seq<char>) -> bool {
    match t {
        Token::Ident(x) => x@ == s,
        _ => false,
    }
}

/// Whether the token is the identifier `word`.
pub fn token_is_word(t: &Token, word: &str) -> (r: bool)
    ensures
        r == is_word(*t, word@),
{
    match t {
        Token::Ident(x) => crate::text::same_text(x.as_str(), word),
        _ => false,
    }
}

/// How a token is written; a string literal without its quotes.
pub open spec fn spelling(t: Token) -> Seq<char> {
    match t {
        Token::Pound => "#"@,
        Token::OpenBracket => "["@,
        Token::CloseBracket => "]"@,
        Token::OpenParen => "("@,
        Token::CloseParen => ")"@,
        Token::Comma => ","@,
        Token::Colon => ":"@,
        Token::PathSep => "::"@,
        Token::Lt => "<"@,
        Token::Gt => ">"@,
        Token::Underscore => "_"@,
        Token::Ident(s) => s@,
        Token::StrLit(s) => s@,
        Token::OtherLit(s) => s@,
        Token::Other(s) => s@,
    }
}

/// The text of a token, for diagnostics.
pub fn token_text(t: &Token) -> (r: String)
    ensures
        r@ == spelling(*t),
{
    match t {
        Token::Pound => String::from_str("#"),
        Token::OpenBracket => String::from_str("["),
        Token::CloseBracket => String::from_str("]"),
        Token::OpenParen => String::from_str("("),
        Token::CloseParen => String::from_str(")"),
        Token::Comma => String::from_str(","),
        Token::Colon => String::from_str(":"),
        Token::PathSep => String::from_str("::"),
        Token::Lt => String::from_str("<"),
        Token::Gt => String::from_str(">"),
        Token::Underscore => String::from_str("_"),
        Token::Ident(s) | Token::StrLit(s) | Token::OtherLit(s) | Token::Other(s) => s.clone(),
    }
}

} // verus!
