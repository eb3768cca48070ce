//! Fresh random identifiers, which the caller supplies: the library decides
//! where they go, not what they are.
use vstd::prelude::*;

verus! {

/// A source of fresh random identifiers.
pub trait TokenSource {
    /// A random alphanumeric token of `len` characters.
    fn next_token(&mut self, len: usize) -> String;

    /// A random numeric identifier of about `bits` bits.
    fn next_id(&mut self, bits: u32) -> u64;
}

} // verus!
