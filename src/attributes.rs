use vstd::prelude::*;
use crate::error::ParseError;
use crate::token::Token;

verus! {

/// An attribute: its name and its arguments, string literals unquoted.
pub struct Attribute {
    pub name: String,
    pub args: Vec<String>,
}

pub type AttrModel = (Seq<char>, Seq<Seq<char>>);

impl vstd::view::View for Attribute {
    type V = AttrModel;

    open spec fn view(&self) -> AttrModel {
        (self.name@, self.args@.map_values(|s: String| s@))
    }
}

pub open spec fn attrs_view(v: Seq<Attribute>) -> Seq<AttrModel> {
    v.map_values(|a: Attribute| a@)
}

/// The token kinds that may stand in an attribute block.
pub open spec fn in_attribute_block(t: Token) -> bool {
    match t {
        Token::Pound | Token::OpenBracket | Token::CloseBracket | Token::OpenParen
        | Token::CloseParen | Token::Comma | Token::Ident(_) | Token::StrLit(_)
        | Token::OtherLit(_) => true,
        _ => false,
    }
}

/// The token kinds that the attribute decoder reads.
pub open spec fn decodable(t: Token) -> bool {
    in_attribute_block(t) && !(t is OtherLit)
}

/// The first index of the run of attribute-block tokens that ends just
/// before `end`.
pub open spec fn attribute_start(toks: Seq<Token>, end: int) -> int
    decreases end,
{
    if end <= 0 {
        0
    } else if in_attribute_block(toks[end - 1]) {
        attribute_start(toks, end - 1)
    } else {
        end
    }
}

/// Decoder state: the attributes so far, the pending name and its arguments.
pub type AttrState = (Seq<AttrModel>, Seq<char>, Seq<Seq<char>>);

pub open spec fn attr_step(st: AttrState, t: Token) -> AttrState {
    match t {
        Token::Comma | Token::CloseParen | Token::CloseBracket => (
            if st.1.len() > 0 {
                st.0.push((st.1, st.2))
            } else {
                st.0
            },
            Seq::empty(),
            Seq::empty(),
        ),
        Token::Ident(s) => if st.1.len() == 0 {
            (st.0, s@, st.2)
        } else {
            (st.0, st.1, st.2.push(s@))
        },
        Token::StrLit(s) => if st.1.len() == 0 {
            (st.0, s@, st.2)
        } else {
            (st.0, st.1, st.2.push(s@))
        },
        _ => st,
    }
}

pub open spec fn attr_fold(toks: Seq<Token>) -> AttrState
    decreases toks.len(),
{
    if toks.len() == 0 {
        (Seq::empty(), Seq::empty(), Seq::empty())
    } else {
        attr_step(attr_fold(toks.drop_last()), toks.last())
    }
}

/// The attributes that a block of tokens declares.
pub open spec fn decode_attributes(toks: Seq<Token>) -> Seq<AttrModel> {
    attr_fold(toks).0
}

pub open spec fn all_decodable(toks: Seq<Token>) -> bool {
    forall|i: int| 0 <= i < toks.len() ==> decodable(#[trigger] toks[i])
}

/// The attributes of the block that ends just before `end`, or `None` where
/// the block holds a literal that is not a string.
pub open spec fn attributes_before(toks: Seq<Token>, end: int) -> Option<Seq<AttrModel>> {
    let block = toks.subrange(attribute_start(toks, end), end);
    if all_decodable(block) {
        Some(decode_attributes(block))
    } else {
        None
    }
}

/// Decodes the attributes in `ast[start..end]`. A token that cannot stand
/// in an attribute block, or a literal that is not a string, is an error.
pub fn find_attributes(ast: &Vec<Token>, start: usize, end: usize) -> (r: Result<
    Vec<Attribute>,
    ParseError,
>)
    requires
        start <= end <= ast.len(),
    ensures
        match r {
            Ok(v) => all_decodable(ast@.subrange(start as int, end as int)) && attrs_view(v@)
                == decode_attributes(ast@.subrange(start as int, end as int)),
            Err(e) => !all_decodable(ast@.subrange(start as int, end as int))
                && e is UnexpectedNode,
        },
{
    let ghost block = ast@.subrange(start as int, end as int);
    let mut result: Vec<Attribute> = Vec::new();
    let mut name = String::new();
    let mut args: Vec<String> = Vec::new();
    let mut i: usize = start;
    while i < end
        invariant
            start <= i <= end <= ast.len(),
            block == ast@.subrange(start as int, end as int),
            all_decodable(block.subrange(0, i - start)),
            attr_fold(block.subrange(0, i - start)) == (
                attrs_view(result@),
                name@,
                args@.map_values(|s: String| s@),
            ),
        decreases end - i,
    {
        let ghost pre = block.subrange(0, i - start);
        let ghost st = attr_fold(pre);
        assert(block.subrange(0, i + 1 - start).drop_last() == pre);
        assert(block.subrange(0, i + 1 - start).last() == ast@[i as int]);
        match &ast[i] {
            Token::Pound | Token::OpenBracket | Token::OpenParen => {},
            Token::Comma | Token::CloseParen | Token::CloseBracket => {
                if name.unicode_len() > 0 {
                    let a = Attribute { name: name, args: args };
                    result.push(a);
                    assert(attrs_view(result@) == st.0.push((st.1, st.2)));
                }
                name = String::new();
                args = Vec::new();
                assert(args@.map_values(|s: String| s@) == Seq::<Seq<char>>::empty());
            },
            Token::Ident(s) | Token::StrLit(s) => {
                if name.unicode_len() == 0 {
                    name = s.clone();
                } else {
                    args.push(s.clone());
                    assert(args@.map_values(|s: String| s@) == st.2.push(s@));
                }
            },
            Token::OtherLit(_) | Token::Colon | Token::PathSep | Token::Lt | Token::Gt
            | Token::Underscore | Token::Other(_) => {
                assert(!decodable(block[i - start]));
                let mut msg = String::from_str("unexpected token `");
                crate::text::append_text(&mut msg, crate::token::token_text(&ast[i]).as_str());
                crate::text::append_text(&mut msg, "` in an attribute");
                return Err(ParseError::UnexpectedNode(msg));
            },
        }
        assert(all_decodable(block.subrange(0, i + 1 - start))) by {
            assert forall|k: int| 0 <= k < i + 1 - start implies decodable(
                #[trigger] block.subrange(0, i + 1 - start)[k],
            ) by {
                if k < i - start {
                    assert(block.subrange(0, i + 1 - start)[k] == pre[k]);
                }
            }
        }
        i = i + 1;
    }
    assert(block.subrange(0, end - start) == block);
    Ok(result)
}

/// Finds the attribute block that ends just before `end` and decodes it.
pub fn find_attributes_reversed(ast: &Vec<Token>, end: usize) -> (r: Result<
    Vec<Attribute>,
    ParseError,
>)
    requires
        end <= ast.len(),
    ensures
        match r {
            Ok(v) => attributes_before(ast@, end as int) == Some(attrs_view(v@)),
            Err(e) => attributes_before(ast@, end as int) is None && e is UnexpectedNode,
        },
{
    let mut start: usize = end;
    while start > 0 && in_block(&ast[start - 1])
        invariant
            start <= end <= ast.len(),
            attribute_start(ast@, end as int) == attribute_start(ast@, start as int),
        decreases start,
    {
        start = start - 1;
    }
    find_attributes(ast, start, end)
}

fn in_block(t: &Token) -> (r: bool)
    ensures
        r == in_attribute_block(*t),
{
    match t {
        Token::Pound | Token::OpenBracket | Token::CloseBracket | Token::OpenParen
        | Token::CloseParen | Token::Comma | Token::Ident(_) | Token::StrLit(_)
        | Token::OtherLit(_) => true,
        _ => false,
    }
}

} // verus!
