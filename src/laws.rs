use vstd::prelude::*;

use crate::expand::{
    byte_size_spec, concat_prefix, concat_spec, lemma_concat_error_persists, lemma_pair, pair_args,
};
use crate::resolve::{
    array_prefix, byte_of, lemma_array_error_persists, misplaced, resolve, separator_error,
    type_error, unsupported,
};
use crate::token::{Delim, Diagnostic, Expected, Lit, Span, Token};

verus! {

/// The bytes of the expressions among the first `n` arguments, each taken as
/// it evaluates, joined in order.
pub open spec fn join(args: Seq<Token>, n: int) -> Seq<u8>
    decreases n,
{
    if n <= 0 {
        Seq::empty()
    } else if (n - 1) % 2 == 0 {
        join(args, n - 1) + resolve(args[n - 1])->Ok_0
    } else {
        join(args, n - 1)
    }
}

/// The sum of the lengths of what the expressions among the first `n`
/// arguments evaluate to.
pub open spec fn total_len(args: Seq<Token>, n: int) -> nat
    decreases n,
{
    if n <= 0 {
        0
    } else if (n - 1) % 2 == 0 {
        total_len(args, n - 1) + resolve(args[n - 1])->Ok_0.len()
    } else {
        total_len(args, n - 1)
    }
}

/// Every position of an array before `i` is right: values and commas
/// alternate, and each value is an integer literal below 256.
pub open spec fn array_fine_before(ts: Seq<Token>, i: int) -> bool {
    forall|j: int|
        0 <= j < i ==> !(#[trigger] misplaced(ts, j)) && (j % 2 == 0 ==> byte_of(ts[j]) is Ok)
}

/// Every position of an argument list before `i` is right: expressions and
/// commas alternate, and each expression evaluates.
pub open spec fn args_fine_before(args: Seq<Token>, i: int) -> bool {
    forall|j: int|
        0 <= j < i ==> !(#[trigger] misplaced(args, j)) && (j % 2 == 0 ==> resolve(args[j]) is Ok)
}

/// The tokens of a well-formed array of bytes.
pub open spec fn is_byte_array(ts: Seq<Token>) -> bool {
    array_fine_before(ts, ts.len() as int)
}

/// A token that a reference may stand for: a byte string or an array.
pub open spec fn is_literal_expr(t: Token) -> bool {
    t matches Token::Literal(_, Lit::ByteStr(_)) || t matches Token::Group(_, Delim::Bracket, _)
}

proof fn lemma_array_prefix_ok(ts: Seq<Token>, n: int)
    requires
        0 <= n <= ts.len(),
        array_fine_before(ts, n),
    ensures
        array_prefix(ts, n) is Ok,
        array_prefix(ts, n)->Ok_0.len() == (n + 1) / 2,
    decreases n,
{
    if n > 0 {
        lemma_array_prefix_ok(ts, n - 1);
        assert(!misplaced(ts, n - 1));
    }
}

proof fn lemma_concat_prefix_join(args: Seq<Token>, n: int)
    requires
        0 <= n <= args.len(),
        args_fine_before(args, n),
    ensures
        concat_prefix(args, n) == Ok::<Seq<u8>, Diagnostic>(join(args, n)),
        join(args, n).len() == total_len(args, n),
    decreases n,
{
    if n > 0 {
        lemma_concat_prefix_join(args, n - 1);
        assert(!misplaced(args, n - 1));
    }
}

/// A byte-string literal has as many bytes as its source spells out, escape
/// sequences included character by character; tokens after it are ignored.
pub proof fn lemma_byte_size_of_byte_str(sp: Span, raw: Vec<u8>, rest: Seq<Token>)
    ensures
        byte_size_spec(seq![Token::Literal(sp, Lit::ByteStr(raw))] + rest) == Ok::<nat, Diagnostic>(
            raw@.len(),
        ),
{
    let args = seq![Token::Literal(sp, Lit::ByteStr(raw))] + rest;
    assert(args[0] == Token::Literal(sp, Lit::ByteStr(raw)));
}

/// A well-formed array of bytes has as many bytes as it lists values.
pub proof fn lemma_byte_size_of_array(sp: Span, ts: Vec<Token>, rest: Seq<Token>)
    requires
        is_byte_array(ts@),
    ensures
        byte_size_spec(seq![Token::Group(sp, Delim::Bracket, ts)] + rest) == Ok::<nat, Diagnostic>(
            ((ts@.len() + 1) / 2) as nat,
        ),
{
    let args = seq![Token::Group(sp, Delim::Bracket, ts)] + rest;
    assert(args[0] == Token::Group(sp, Delim::Bracket, ts));
    lemma_array_prefix_ok(ts@, ts@.len() as int);
}

/// A well-formed argument list whose expressions all evaluate concatenates to
/// their bytes joined in order, of the summed length.
pub proof fn lemma_concat_joins(sp: Span, args: Seq<Token>)
    requires
        args.len() >= 1,
        args_fine_before(args, args.len() as int),
    ensures
        concat_spec(sp, args) == Ok::<Seq<u8>, Diagnostic>(join(args, args.len() as int)),
        join(args, args.len() as int).len() == total_len(args, args.len() as int),
{
    lemma_concat_prefix_join(args, args.len() as int);
}

/// Swapping two arguments changes the result exactly when their bytes do not
/// commute; in particular it does whenever they differ but have one length.
pub proof fn lemma_concat_order(sp: Span, a: Token, comma: Span, b: Token)
    requires
        resolve(a) is Ok,
        resolve(b) is Ok,
    ensures
        (concat_spec(sp, pair_args(a, comma, b)) == concat_spec(sp, pair_args(b, comma, a))) <==> (
        resolve(a)->Ok_0 + resolve(b)->Ok_0 == resolve(b)->Ok_0 + resolve(a)->Ok_0),
        resolve(a)->Ok_0.len() == resolve(b)->Ok_0.len() && resolve(a) != resolve(b) ==> concat_spec(
            sp,
            pair_args(a, comma, b),
        ) != concat_spec(sp, pair_args(b, comma, a)),
{
    lemma_pair(sp, a, comma, b);
    lemma_pair(sp, b, comma, a);
    let x = resolve(a)->Ok_0;
    let y = resolve(b)->Ok_0;
    if x.len() == y.len() && x + y == y + x {
        assert((x + y).subrange(0, x.len() as int) =~= x);
        assert((y + x).subrange(0, y.len() as int) =~= y);
    }
}

/// The first misplaced comma or value of an argument list, with every
/// position before it right, fails concatenation with a separator diagnostic
/// that names argument `i / 2`.
pub proof fn lemma_concat_misplaced_separator(sp: Span, args: Seq<Token>, i: int)
    requires
        0 <= i < args.len(),
        misplaced(args, i),
        args_fine_before(args, i),
    ensures
        concat_spec(sp, args) == Err::<Seq<u8>, Diagnostic>(separator_error(args, i)),
{
    lemma_concat_prefix_join(args, i);
    lemma_concat_error_persists(args, i + 1, args.len() as int);
}

/// The same holds inside an array: its first misplaced comma or value, with
/// every position before it right, fails it with a separator diagnostic.
pub proof fn lemma_array_misplaced_separator(sp: Span, ts: Vec<Token>, i: int)
    requires
        0 <= i < ts@.len(),
        misplaced(ts@, i),
        array_fine_before(ts@, i),
    ensures
        resolve(Token::Group(sp, Delim::Bracket, ts)) == Err::<Seq<u8>, Diagnostic>(
            separator_error(ts@, i),
        ),
{
    lemma_array_prefix_ok(ts@, i);
    lemma_array_error_persists(ts@, i + 1, ts@.len() as int);
}

/// An array value of 256 or more, with every position before it right, fails
/// the array with a type diagnostic on that value; what follows it is not
/// looked at.
pub proof fn lemma_array_wide_value(sp: Span, ts: Vec<Token>, i: int)
    requires
        0 <= i < ts@.len(),
        i % 2 == 0,
        ts@[i] matches Token::Literal(_, Lit::Int(n)) && n >= 256,
        array_fine_before(ts@, i),
    ensures
        resolve(Token::Group(sp, Delim::Bracket, ts)) == Err::<Seq<u8>, Diagnostic>(
            type_error(ts@[i], Expected::UnsignedByte),
        ),
        resolve(Token::Group(sp, Delim::Bracket, ts))->Err_0.kind is Type,
{
    lemma_array_prefix_ok(ts@, i);
    lemma_array_error_persists(ts@, i + 1, ts@.len() as int);
}

/// A reference to a byte string or an array evaluates as that expression
/// does; a reference to anything else is unsupported.
pub proof fn lemma_reference_one_level(sp: Span, inner: Token)
    ensures
        is_literal_expr(inner) ==> resolve(Token::Reference(sp, Box::new(inner))) == resolve(inner),
        !is_literal_expr(inner) ==> resolve(Token::Reference(sp, Box::new(inner))) == Err::<
            Seq<u8>,
            Diagnostic,
        >(unsupported(sp, inner)),
{
}

} // verus!
