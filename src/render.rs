use vstd::prelude::*;

use crate::parser::{Delimiter, Spacing, Token};

verus! {

/// The opening text of a group.
pub open spec fn open_text(d: Delimiter) -> Seq<char> {
    match d {
        Delimiter::Parenthesis => "("@,
        Delimiter::Bracket => "["@,
        Delimiter::Brace => "{"@,
        Delimiter::Invisible => Seq::empty(),
    }
}

/// The closing text of a group.
pub open spec fn close_text(d: Delimiter) -> Seq<char> {
    match d {
        Delimiter::Parenthesis => ")"@,
        Delimiter::Bracket => "]"@,
        Delimiter::Brace => "}"@,
        Delimiter::Invisible => Seq::empty(),
    }
}

/// The source text of a token tree.
pub open spec fn token_text(t: Token) -> Seq<char>
    decreases t,
{
    match t {
        Token::Ident(s) => s@,
        Token::Punct(c, _) => seq![c],
        Token::Literal(s) => s@,
        Token::Group(d, inner) => open_text(d) + tokens_text(inner@) + close_text(d),
    }
}

/// What follows token `t` in source text: nothing after punctuation joined
/// to the next token, a space after any other token.
pub open spec fn separator_text(t: Token) -> Seq<char> {
    match t {
        Token::Punct(_, Spacing::Joint) => Seq::empty(),
        _ => " "@,
    }
}

/// The source text of a run of tokens, each followed by its separator.
pub open spec fn tokens_text(ts: Seq<Token>) -> Seq<char>
    decreases ts,
{
    if ts.len() == 0 {
        Seq::empty()
    } else {
        tokens_text(ts.drop_last()) + token_text(ts.last()) + separator_text(ts.last())
    }
}

/// Relies on `char::to_string`: a string holding exactly that character.
#[verifier::external_body]
fn char_text(c: char) -> (r: String)
    ensures
        r@ == seq![c],
{
    c.to_string()
}

fn append_open(d: Delimiter, out: &mut String)
    ensures
        final(out)@ == old(out)@ + open_text(d),
{
    match d {
        Delimiter::Parenthesis => out.append("("),
        Delimiter::Bracket => out.append("["),
        Delimiter::Brace => out.append("{"),
        Delimiter::Invisible => {
            assert(old(out)@ + open_text(d) =~= old(out)@);
        },
    }
}

fn append_close(d: Delimiter, out: &mut String)
    ensures
        final(out)@ == old(out)@ + close_text(d),
{
    match d {
        Delimiter::Parenthesis => out.append(")"),
        Delimiter::Bracket => out.append("]"),
        Delimiter::Brace => out.append("}"),
        Delimiter::Invisible => {
            assert(old(out)@ + close_text(d) =~= old(out)@);
        },
    }
}

/// Appends the source text of `t` to `out`.
fn append_token(t: &Token, out: &mut String)
    ensures
        final(out)@ == old(out)@ + token_text(*t),
    decreases t,
{
    match t {
        Token::Ident(s) => out.append(s.as_str()),
        Token::Punct(c, _) => {
            let text = char_text(*c);
            out.append(text.as_str());
        },
        Token::Literal(s) => out.append(s.as_str()),
        Token::Group(d, inner) => {
            let ghost start = out@;
            append_open(*d, out);
            append_tokens(inner, out);
            append_close(*d, out);
            assert(out@ =~= start + token_text(*t));
        },
    }
}

/// Appends the source text of `ts` to `out`.
pub fn append_tokens(ts: &Vec<Token>, out: &mut String)
    ensures
        final(out)@ == old(out)@ + tokens_text(ts@),
    decreases ts,
{
    let ghost start = out@;
    let mut i: usize = 0;
    proof {
        assert(ts@.subrange(0, 0) =~= Seq::<Token>::empty());
        assert(out@ =~= start + tokens_text(ts@.subrange(0, 0)));
    }
    while i < ts.len()
        invariant
            i <= ts@.len(),
            out@ == start + tokens_text(ts@.subrange(0, i as int)),
        decreases ts@.len() - i,
    {
        proof {
            assert(decreases_to!(*ts => ts[i as int]));
        }
        append_token(&ts[i], out);
        match &ts[i] {
            Token::Punct(_, Spacing::Joint) => {
                assert(out@ + separator_text(ts@[i as int]) =~= out@);
            },
            _ => out.append(" "),
        }
        proof {
            let next = ts@.subrange(0, i + 1);
            assert(next.drop_last() =~= ts@.subrange(0, i as int));
            assert(out@ =~= start + tokens_text(next));
        }
        i = i + 1;
    }
    proof {
        assert(ts@.subrange(0, ts@.len() as int) =~= ts@);
    }
}

} // verus!
