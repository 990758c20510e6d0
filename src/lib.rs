//! Compile-time evaluation of byte literals: `byte_size_of` gives the number
//! of bytes an expression denotes, `concat_bytes` joins the bytes of several
//! expressions in order. Expressions are byte-string literals (taken as
//! written, without escape decoding), arrays of unsigned-byte literals, and
//! references one level deep to either.

pub mod token;
pub mod resolve;
pub mod expand;
pub mod mesg;
pub mod registry;
pub mod laws;
