use vstd::prelude::*;

use crate::expand::{bs_expand, byte_size_spec, concat_expand, concat_spec};
use crate::token::{Diagnostic, Span, Token};

verus! {

/// The evaluators that the host can invoke by name.
#[derive(Clone, Copy, Debug, PartialEq, Eq, Structural)]
pub enum Expander {
    ByteSizeOf,
    ConcatBytes,
}

/// The constant an invocation expands to.
pub enum Expansion {
    /// An unsigned integer constant.
    Size(usize),
    /// A byte-string constant.
    Bytes(Vec<u8>),
}

/// A name under which the host exposes an evaluator.
pub struct Registration {
    pub name: String,
    pub expander: Expander,
}

/// The host's table of named evaluators, in order of registration.
pub struct Registry {
    pub macros: Vec<Registration>,
}

impl Registry {
    pub fn new() -> (r: Registry)
        ensures
            r.macros@.len() == 0,
    {
        Registry { macros: Vec::new() }
    }
}

impl Expander {
    /// What an invocation expands to: a size for `byte_size_of`, the joined
    /// bytes for `concat_bytes`, or the diagnostic of the first failure.
    pub open spec fn expands_to(self, sp: Span, args: Seq<Token>, r: Result<Expansion, Diagnostic>) -> bool {
        match self {
            Expander::ByteSizeOf => match r {
                Ok(Expansion::Size(n)) => byte_size_spec(args) == Ok::<nat, Diagnostic>(n as nat),
                Ok(Expansion::Bytes(_)) => false,
                Err(d) => byte_size_spec(args) == Err::<nat, Diagnostic>(d),
            },
            Expander::ConcatBytes => match r {
                Ok(Expansion::Bytes(v)) => concat_spec(sp, args) == Ok::<Seq<u8>, Diagnostic>(v@),
                Ok(Expansion::Size(_)) => false,
                Err(d) => concat_spec(sp, args) == Err::<Seq<u8>, Diagnostic>(d),
            },
        }
    }

    /// Runs the evaluator on an invocation's arguments; `sp` is the span of
    /// the whole invocation. The host hands `byte_size_of` at least one token.
    pub fn expand(self, sp: Span, args: &[Token]) -> (r: Result<Expansion, Diagnostic>)
        requires
            self == Expander::ByteSizeOf ==> args@.len() >= 1,
        ensures
            self.expands_to(sp, args@, r),
    {
        match self {
            Expander::ByteSizeOf => match bs_expand(args) {
                Ok(n) => Ok(Expansion::Size(n)),
                Err(d) => Err(d),
            },
            Expander::ConcatBytes => match concat_expand(sp, args) {
                Ok(v) => Ok(Expansion::Bytes(v)),
                Err(d) => Err(d),
            },
        }
    }
}

/// Registers the two evaluators with the host: `byte_size_of`, then
/// `concat_bytes`. Earlier registrations are kept.
pub fn plugin_registrar(reg: &mut Registry)
    ensures
        final(reg).macros@.len() == old(reg).macros@.len() + 2,
        forall|i: int|
            0 <= i < old(reg).macros@.len() ==> final(reg).macros@[i] == old(reg).macros@[i],
        final(reg).macros@[old(reg).macros@.len() as int].name@ == "byte_size_of"@,
        final(reg).macros@[old(reg).macros@.len() as int].expander == Expander::ByteSizeOf,
        final(reg).macros@[old(reg).macros@.len() + 1int].name@ == "concat_bytes"@,
        final(reg).macros@[old(reg).macros@.len() + 1int].expander == Expander::ConcatBytes,
{
    reg.macros.push(Registration { name: "byte_size_of".to_owned(), expander: Expander::ByteSizeOf });
    reg.macros.push(Registration { name: "concat_bytes".to_owned(), expander: Expander::ConcatBytes });
}

} // verus!
