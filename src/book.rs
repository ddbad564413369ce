//! The cleaned excerpt that an endpoint returns for one chunk.
use vstd::prelude::*;

verus! {

/// A cleaned book excerpt, as the endpoint's reply object carries it.
#[allow(non_snake_case)]
#[derive(Debug)]
pub struct BookChunk {
    /// The cleaned text.
    pub sanitizedBookExcerpt: String,
}

impl BookChunk {
    /// The outcome of decoding a reply: the excerpt it carries.
    pub fn into_excerpt(self) -> (r: String)
        ensures
            r@ == self.sanitizedBookExcerpt@,
    {
        self.sanitizedBookExcerpt
    }
}

} // verus!
