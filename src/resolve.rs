use vstd::prelude::*;

use crate::token::{
    found_of, is_separator, span_of, Delim, Diagnostic, ErrorKind, Expected, Lit, Span, Token,
};

verus! {

/// Position `i` breaks the alternation of values and commas: a comma where a
/// value belongs, a value where a comma belongs, or a comma that ends the list.
pub open spec fn misplaced(ts: Seq<Token>, i: int) -> bool {
    if i % 2 == 0 {
        is_separator(ts[i])
    } else {
        !is_separator(ts[i]) || i + 1 == ts.len()
    }
}

pub open spec fn separator_error(ts: Seq<Token>, i: int) -> Diagnostic {
    Diagnostic { span: span_of(ts[i]), kind: ErrorKind::Separator { arg: (i / 2) as usize } }
}

pub open spec fn type_error(t: Token, expected: Expected) -> Diagnostic {
    Diagnostic { span: span_of(t), kind: ErrorKind::Type { expected, found: found_of(t) } }
}

/// A value of an array: an integer literal that fits in a byte.
pub open spec fn byte_of(t: Token) -> Result<u8, Diagnostic> {
    match t {
        Token::Literal(_, Lit::Int(n)) => if n < 256 {
            Ok(n as u8)
        } else {
            Err(type_error(t, Expected::UnsignedByte))
        },
        _ => Err(type_error(t, Expected::UnsignedByte)),
    }
}

/// The tokens inside `[ ... ]` read left to right up to position `n`: the
/// bytes of the values met so far, or the diagnostic of the first position
/// that is wrong, whether by its place or by its value.
pub open spec fn array_prefix(ts: Seq<Token>, n: int) -> Result<Seq<u8>, Diagnostic>
    decreases n,
{
    if n <= 0 {
        Ok(Seq::empty())
    } else {
        match array_prefix(ts, n - 1) {
            Err(d) => Err(d),
            Ok(b) => if misplaced(ts, n - 1) {
                Err(separator_error(ts, n - 1))
            } else if (n - 1) % 2 == 0 {
                match byte_of(ts[n - 1]) {
                    Ok(x) => Ok(b.push(x)),
                    Err(d) => Err(d),
                }
            } else {
                Ok(b)
            },
        }
    }
}

/// Once a prefix fails, every longer prefix fails the same way.
pub proof fn lemma_array_error_persists(ts: Seq<Token>, j: int, m: int)
    requires
        0 <= j <= m,
        array_prefix(ts, j) is Err,
    ensures
        array_prefix(ts, m) == array_prefix(ts, j),
    decreases m - j,
{
    if m > j {
        lemma_array_error_persists(ts, j, m - 1);
    }
}

/// What the tokens inside `[ ... ]` evaluate to.
pub open spec fn array_spec(ts: Seq<Token>) -> Result<Seq<u8>, Diagnostic> {
    array_prefix(ts, ts.len() as int)
}

/// A byte-string literal gives its source bytes, undecoded.
pub open spec fn byte_str_of(t: Token) -> Result<Seq<u8>, Diagnostic> {
    match t {
        Token::Literal(_, Lit::ByteStr(b)) => Ok(b@),
        _ => Err(type_error(t, Expected::ByteStr)),
    }
}

pub open spec fn unsupported(sp: Span, t: Token) -> Diagnostic {
    Diagnostic { span: sp, kind: ErrorKind::Unsupported { found: found_of(t) } }
}

/// The expression behind a reference, followed exactly one level: a byte
/// string or an array; anything else, another reference included, is
/// unsupported and reported at the reference.
pub open spec fn resolve_referenced(sp: Span, t: Token) -> Result<Seq<u8>, Diagnostic> {
    match t {
        Token::Literal(_, Lit::ByteStr(b)) => Ok(b@),
        Token::Group(_, Delim::Bracket, ts) => array_spec(ts@),
        _ => Err(unsupported(sp, t)),
    }
}

/// What one expression token evaluates to.
pub open spec fn resolve(t: Token) -> Result<Seq<u8>, Diagnostic> {
    match t {
        Token::Literal(_, _) => byte_str_of(t),
        Token::Group(_, Delim::Bracket, ts) => array_spec(ts@),
        Token::Reference(sp, inner) => resolve_referenced(sp, *inner),
        _ => Err(unsupported(span_of(t), t)),
    }
}

pub open spec fn bytes_view(r: Result<Vec<u8>, Diagnostic>) -> Result<Seq<u8>, Diagnostic> {
    match r {
        Ok(v) => Ok(v@),
        Err(d) => Err(d),
    }
}

/// Classifies a token as a byte-string literal and copies its bytes.
pub fn extract_vec_from_literal(t: &Token) -> (r: Result<Vec<u8>, Diagnostic>)
    ensures
        bytes_view(r) == byte_str_of(*t),
{
    match t {
        Token::Literal(_, Lit::ByteStr(b)) => Ok(b.clone()),
        _ => Err(Diagnostic {
            span: t.span(),
            kind: ErrorKind::Type { expected: Expected::ByteStr, found: t.found() },
        }),
    }
}

/// Classifies a token as an unsigned-byte literal.
pub fn extract_u8_from_lit(t: &Token) -> (r: Result<u8, Diagnostic>)
    ensures
        r == byte_of(*t),
{
    match t {
        Token::Literal(_, Lit::Int(n)) => {
            if *n < 256 {
                return Ok(*n as u8);
            }
        },
        _ => {},
    }
    Err(Diagnostic {
        span: t.span(),
        kind: ErrorKind::Type { expected: Expected::UnsignedByte, found: t.found() },
    })
}

/// Evaluates the tokens inside `[ ... ]` to the bytes they list, reading
/// left to right and stopping at the first wrong position.
pub fn extract_vec_from_delimited(ts: &Vec<Token>) -> (r: Result<Vec<u8>, Diagnostic>)
    ensures
        bytes_view(r) == array_spec(ts@),
{
    let n = ts.len();
    let mut res: Vec<u8> = Vec::new();
    let mut i: usize = 0;
    while i < n
        invariant
            n == ts@.len(),
            i <= n,
            array_prefix(ts@, i as int) == Ok::<Seq<u8>, Diagnostic>(res@),
        decreases n - i,
    {
        let sep = ts[i].is_separator();
        let bad = if i % 2 == 0 {
            sep
        } else {
            !sep || i + 1 == n
        };
        if bad {
            let arg: usize = i / 2;
            let d = Diagnostic { span: ts[i].span(), kind: ErrorKind::Separator { arg } };
            proof {
                lemma_array_error_persists(ts@, i + 1, n as int);
            }
            return Err(d);
        }
        if i % 2 == 0 {
            match extract_u8_from_lit(&ts[i]) {
                Ok(x) => res.push(x),
                Err(d) => {
                    proof {
                        lemma_array_error_persists(ts@, i + 1, n as int);
                    }
                    return Err(d);
                },
            }
        }
        i = i + 1;
    }
    Ok(res)
}

/// Follows a reference one level to the expression it stands for.
pub fn extract_vec_from_nonterminal(sp: Span, inner: &Token) -> (r: Result<Vec<u8>, Diagnostic>)
    ensures
        bytes_view(r) == resolve_referenced(sp, *inner),
{
    match inner {
        Token::Literal(_, Lit::ByteStr(_)) => extract_vec_from_literal(inner),
        Token::Group(_, Delim::Bracket, ts) => extract_vec_from_delimited(ts),
        _ => Err(Diagnostic { span: sp, kind: ErrorKind::Unsupported { found: inner.found() } }),
    }
}

/// Evaluates one expression token to the bytes it denotes.
pub fn extract_vec_from_token(t: &Token) -> (r: Result<Vec<u8>, Diagnostic>)
    ensures
        bytes_view(r) == resolve(*t),
{
    match t {
        Token::Literal(_, _) => extract_vec_from_literal(t),
        Token::Group(_, Delim::Bracket, ts) => extract_vec_from_delimited(ts),
        Token::Reference(sp, inner) => extract_vec_from_nonterminal(*sp, inner),
        _ => Err(Diagnostic { span: t.span(), kind: ErrorKind::Unsupported { found: t.found() } }),
    }
}

} // verus!
