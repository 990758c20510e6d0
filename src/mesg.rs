use vstd::prelude::*;

use crate::expand::{bs_expand, concat_expand, lemma_pair, mesg_spec, pair_args};
use crate::resolve::{array_prefix, bytes_view, resolve};
use crate::token::{Delim, Diagnostic, Lit, Span, Token};

verus! {

/// Builds a constant message from two expressions: sizes each one, then
/// joins them; the joined bytes are exactly as long as the two sizes added.
pub fn build_const_mesg(sp: Span, first: Token, second: Token) -> (r: Result<
    Vec<u8>,
    Diagnostic,
>)
    ensures
        bytes_view(r) == mesg_spec(first, second),
{
    let ghost a = first;
    let ghost b = second;
    let mut one: Vec<Token> = Vec::new();
    one.push(first);
    let len1 = match bs_expand(one.as_slice()) {
        Ok(n) => n,
        Err(d) => return Err(d),
    };
    let mut two: Vec<Token> = Vec::new();
    two.push(second);
    let len2 = match bs_expand(two.as_slice()) {
        Ok(n) => n,
        Err(d) => return Err(d),
    };
    let second = two.pop().unwrap();
    let first = one.pop().unwrap();
    let mut args: Vec<Token> = Vec::new();
    args.push(first);
    args.push(Token::Separator(sp));
    args.push(second);
    proof {
        lemma_pair(sp, a, sp, b);
        assert(args@ =~= pair_args(a, sp, b));
    }
    let r = concat_expand(sp, args.as_slice());
    assert(r is Ok && r->Ok_0@.len() == len1 + len2);
    r
}

/// The array `[23, 10, 10, 0]` that ends both messages.
fn mesg_trailer(sp: Span) -> (r: Token)
    ensures
        resolve(r) == Ok::<Seq<u8>, Diagnostic>(seq![23u8, 10u8, 10u8, 0u8]),
{
    let mut ts: Vec<Token> = Vec::new();
    ts.push(Token::Literal(sp, Lit::Int(23)));
    ts.push(Token::Separator(sp));
    ts.push(Token::Literal(sp, Lit::Int(10)));
    ts.push(Token::Separator(sp));
    ts.push(Token::Literal(sp, Lit::Int(10)));
    ts.push(Token::Separator(sp));
    ts.push(Token::Literal(sp, Lit::Int(0)));
    proof {
        reveal_with_fuel(array_prefix, 8);
        assert(array_prefix(ts@, 7)->Ok_0 =~= seq![23u8, 10u8, 10u8, 0u8]);
    }
    Token::Group(sp, Delim::Bracket, ts)
}

/// The hello message: `b"HELLO"` followed by `[23, 10, 10, 0]`.
pub fn send_hello() -> (r: Vec<u8>)
    ensures
        r@ == seq![72u8, 69u8, 76u8, 76u8, 79u8, 23u8, 10u8, 10u8, 0u8],
{
    let sp = Span { lo: 0, hi: 0 };
    let word: Vec<u8> = vec![72u8, 69u8, 76u8, 76u8, 79u8];
    let first = Token::Literal(sp, Lit::ByteStr(word));
    let second = mesg_trailer(sp);
    let r = build_const_mesg(sp, first, second);
    match r {
        Ok(v) => {
            assert(v@ =~= seq![72u8, 69u8, 76u8, 76u8, 79u8, 23u8, 10u8, 10u8, 0u8]);
            v
        },
        Err(_) => Vec::new(),
    }
}

/// The bye message: `b"BYE"` followed by `[23, 10, 10, 0]`.
pub fn send_bye() -> (r: Vec<u8>)
    ensures
        r@ == seq![66u8, 89u8, 69u8, 23u8, 10u8, 10u8, 0u8],
{
    let sp = Span { lo: 0, hi: 0 };
    let word: Vec<u8> = vec![66u8, 89u8, 69u8];
    let first = Token::Literal(sp, Lit::ByteStr(word));
    let second = mesg_trailer(sp);
    let r = build_const_mesg(sp, first, second);
    match r {
        Ok(v) => {
            assert(v@ =~= seq![66u8, 89u8, 69u8, 23u8, 10u8, 10u8, 0u8]);
            v
        },
        Err(_) => Vec::new(),
    }
}

} // verus!
