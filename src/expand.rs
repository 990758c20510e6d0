use vstd::prelude::*;

use crate::resolve::{bytes_view, extract_vec_from_token, misplaced, resolve, separator_error};
use crate::token::{Diagnostic, ErrorKind, Span, Token};

verus! {

/// The arguments read left to right up to position `n`: the bytes of the
/// expressions met so far joined in order, or the diagnostic of the first
/// position that is wrong, whether by its place or by its expression.
pub open spec fn concat_prefix(args: Seq<Token>, n: int) -> Result<Seq<u8>, Diagnostic>
    decreases n,
{
    if n <= 0 {
        Ok(Seq::empty())
    } else {
        match concat_prefix(args, n - 1) {
            Err(d) => Err(d),
            Ok(b) => if misplaced(args, n - 1) {
                Err(separator_error(args, n - 1))
            } else if (n - 1) % 2 == 0 {
                match resolve(args[n - 1]) {
                    Ok(c) => Ok(b + c),
                    Err(d) => Err(d),
                }
            } else {
                Ok(b)
            },
        }
    }
}

/// What `concat_bytes` evaluates to: at least one argument, then the
/// arguments and their commas read left to right.
pub open spec fn concat_spec(sp: Span, args: Seq<Token>) -> Result<Seq<u8>, Diagnostic> {
    if args.len() == 0 {
        Err(Diagnostic { span: sp, kind: ErrorKind::Arity })
    } else {
        concat_prefix(args, args.len() as int)
    }
}

/// What `byte_size_of` evaluates to: the length of its first argument's
/// bytes. Tokens after the first are not looked at.
pub open spec fn byte_size_spec(args: Seq<Token>) -> Result<nat, Diagnostic> {
    match resolve(args[0]) {
        Ok(b) => Ok(b.len()),
        Err(d) => Err(d),
    }
}

pub open spec fn size_view(r: Result<usize, Diagnostic>) -> Result<nat, Diagnostic> {
    match r {
        Ok(n) => Ok(n as nat),
        Err(d) => Err(d),
    }
}

/// Two expressions with a comma between them.
pub open spec fn pair_args(a: Token, comma: Span, b: Token) -> Seq<Token> {
    seq![a, Token::Separator(comma), b]
}

/// What the message builder gives for two expressions: the first failure,
/// or the two byte sequences joined.
pub open spec fn mesg_spec(a: Token, b: Token) -> Result<Seq<u8>, Diagnostic> {
    match resolve(a) {
        Err(d) => Err(d),
        Ok(x) => match resolve(b) {
            Err(d) => Err(d),
            Ok(y) => Ok(x + y),
        },
    }
}

/// Once a prefix of the arguments fails, every longer prefix fails the same way.
pub proof fn lemma_concat_error_persists(args: Seq<Token>, j: int, m: int)
    requires
        0 <= j <= m,
        concat_prefix(args, j) is Err,
    ensures
        concat_prefix(args, m) == concat_prefix(args, j),
    decreases m - j,
{
    if m > j {
        lemma_concat_error_persists(args, j, m - 1);
    }
}

/// Two expressions that each evaluate, with a comma between them, evaluate
/// to their bytes joined.
pub proof fn lemma_pair(sp: Span, a: Token, comma: Span, b: Token)
    requires
        resolve(a) is Ok,
        resolve(b) is Ok,
    ensures
        concat_spec(sp, pair_args(a, comma, b)) == Ok::<Seq<u8>, Diagnostic>(
            resolve(a)->Ok_0 + resolve(b)->Ok_0,
        ),
{
    reveal_with_fuel(concat_prefix, 4);
    assert(Seq::<u8>::empty() + resolve(a)->Ok_0 =~= resolve(a)->Ok_0);
}

/// Evaluates `byte_size_of`: the number of bytes that the first argument
/// denotes.
pub fn bs_expand(args: &[Token]) -> (r: Result<usize, Diagnostic>)
    requires
        args@.len() >= 1,
    ensures
        size_view(r) == byte_size_spec(args@),
{
    match extract_vec_from_token(&args[0]) {
        Ok(bytes) => Ok(bytes.len()),
        Err(d) => Err(d),
    }
}

/// Evaluates `concat_bytes`: the bytes of all arguments, joined in order.
pub fn concat_expand(sp: Span, args: &[Token]) -> (r: Result<Vec<u8>, Diagnostic>)
    ensures
        bytes_view(r) == concat_spec(sp, args@),
{
    let n = args.len();
    if n == 0 {
        return Err(Diagnostic { span: sp, kind: ErrorKind::Arity });
    }
    let mut con: Vec<u8> = Vec::new();
    let mut i: usize = 0;
    while i < n
        invariant
            n == args@.len(),
            n >= 1,
            i <= n,
            concat_prefix(args@, i as int) == Ok::<Seq<u8>, Diagnostic>(con@),
        decreases n - i,
    {
        let sep = args[i].is_separator();
        let bad = if i % 2 == 0 {
            sep
        } else {
            !sep || i + 1 == n
        };
        if bad {
            let arg: usize = i / 2;
            let d = Diagnostic { span: args[i].span(), kind: ErrorKind::Separator { arg } };
            proof {
                lemma_concat_error_persists(args@, i + 1, n as int);
            }
            return Err(d);
        }
        if i % 2 == 0 {
            match extract_vec_from_token(&args[i]) {
                Ok(bytes) => {
                    let mut bytes = bytes;
                    let ghost before = con@;
                    con.append(&mut bytes);
                    assert(con@ =~= before + resolve(args@[i as int])->Ok_0);
                },
                Err(d) => {
                    proof {
                        lemma_concat_error_persists(args@, i + 1, n as int);
                    }
                    return Err(d);
                },
            }
        }
        i = i + 1;
    }
    Ok(con)
}

} // verus!
