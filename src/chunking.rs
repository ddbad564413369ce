//! Cutting a document into token-bounded chunks.
//!
//! Where a document is cut is left to `text_splitter`, which counts tokens
//! with the `cl100k_base` tokenizer of `tiktoken_rs`. What the library relies
//! on is where each chunk lies in the document: the chunks are non-empty
//! stretches of it that follow one another with nothing between, from its
//! first char to its last, so that joined in order they give it back.
use tiktoken_rs::CoreBPE;
use vstd::prelude::*;

verus! {

/// The token bound of one chunk.
pub const MAX_TOKENS: usize = 500;

#[verifier::external_type_specification]
#[verifier::external_body]
pub struct ExCoreBPE(CoreBPE);

/// One chunk: its text and the position (in chars) where it starts in the
/// document.
#[derive(Debug)]
pub struct Chunk {
    pub offset: usize,
    pub text: String,
}

/// The position just past the last char of `c`.
pub open spec fn end_of(c: Chunk) -> int {
    c.offset + c.text@.len()
}

/// The chunks `cs` as (offset, text) pairs.
pub open spec fn chunk_pairs(cs: Seq<Chunk>) -> Seq<(nat, Seq<char>)> {
    cs.map_values(|c: Chunk| (c.offset as nat, c.text@))
}

/// How `text_splitter` cuts `text` into chunks of at most `max_tokens`
/// cl100k_base tokens, as (char offset, chunk text) pairs.
pub uninterp spec fn cl100k_split(text: Seq<char>, max_tokens: nat) -> Seq<(nat, Seq<char>)>;

/// `cs` tile `doc`: each chunk is the non-empty stretch of `doc` at its
/// offset, the first starts at 0, each starts where the one before ends, and
/// the last ends where `doc` ends (an empty `doc` has no chunks).
pub open spec fn chunks_tile(doc: Seq<char>, cs: Seq<Chunk>) -> bool {
    &&& forall|i: int|
        0 <= i < cs.len() ==> {
            &&& #[trigger] cs[i].text@.len() > 0
            &&& end_of(cs[i]) <= doc.len()
            &&& doc.subrange(cs[i].offset as int, end_of(cs[i])) == cs[i].text@
        }
    &&& forall|i: int| 0 <= i < cs.len() - 1 ==> end_of(#[trigger] cs[i]) == cs[i + 1].offset
    &&& cs.len() == 0 ==> doc.len() == 0
    &&& cs.len() > 0 ==> cs[0].offset == 0 && end_of(cs.last()) == doc.len()
}

/// The texts of the first `n` chunks, joined in order.
pub open spec fn joined(cs: Seq<Chunk>, n: nat) -> Seq<char>
    decreases n,
{
    if n == 0 {
        Seq::empty()
    } else {
        joined(cs, (n - 1) as nat) + cs[n - 1].text@
    }
}

proof fn joined_is_prefix(doc: Seq<char>, cs: Seq<Chunk>, n: nat)
    requires
        chunks_tile(doc, cs),
        0 < n <= cs.len(),
    ensures
        joined(cs, n) == doc.subrange(0, end_of(cs[n - 1])),
    decreases n,
{
    let i = n - 1;
    assert(cs[i].text@.len() > 0);
    if n == 1 {
        assert(joined(cs, 0) + cs[0].text@ =~= cs[0].text@);
    } else {
        joined_is_prefix(doc, cs, (n - 1) as nat);
        assert(cs[i - 1].text@.len() > 0);
        assert(end_of(cs[i - 1]) == cs[i].offset);
        assert(doc.subrange(0, end_of(cs[i - 1])) + doc.subrange(cs[i].offset as int, end_of(cs[i]))
            =~= doc.subrange(0, end_of(cs[i])));
    }
}

/// Chunking is content-preserving: the chunks of a document, joined in
/// order, give the document back, with nothing lost or repeated.
pub proof fn chunks_rebuild_document(doc: Seq<char>, cs: Seq<Chunk>)
    requires
        chunks_tile(doc, cs),
    ensures
        joined(cs, cs.len()) == doc,
{
    if cs.len() == 0 {
        assert(doc =~= Seq::<char>::empty());
    } else {
        joined_is_prefix(doc, cs, cs.len());
        assert(doc.subrange(0, doc.len() as int) =~= doc);
    }
}

/// Relies on tiktoken_rs::cl100k_base, which builds the tokenizer from data
/// compiled into that crate; its error is handed on as text.
#[verifier::external_body]
fn load_tokenizer() -> (r: Result<CoreBPE, String>) {
    tiktoken_rs::cl100k_base().map_err(|e| e.to_string())
}

/// Relies on text_splitter::TextSplitter::chunk_char_indices, over a
/// ChunkConfig of capacity `max_tokens` sized by `tokenizer` (always the
/// cl100k_base tokenizer), with no overlap and trimming turned off: its
/// cursor starts at 0 and moves to the end of each chunk, every chunk runs
/// from the cursor to past it, and it stops when the cursor reaches the end
/// of `text`; each chunk comes with its char offset. The result depends on
/// `text` and `max_tokens` alone. A capacity of 0 is left out: the
/// splitter's size arithmetic underflows on it.
#[verifier::external_body]
fn split_by_tokens(tokenizer: &CoreBPE, text: &str, max_tokens: usize) -> (r: Vec<Chunk>)
    requires
        max_tokens > 0,
    ensures
        chunks_tile(text@, r@),
        chunk_pairs(r@) == cl100k_split(text@, max_tokens as nat),
{
    let config = text_splitter::ChunkConfig::new(max_tokens).with_trim(false).with_sizer(tokenizer);
    text_splitter::TextSplitter::new(config)
        .chunk_char_indices(text)
        .map(|c| Chunk { offset: c.char_offset, text: c.chunk.to_string() })
        .collect()
}

/// Cuts documents into chunks, counting tokens with the `cl100k_base`
/// tokenizer.
pub struct Chunker {
    tokenizer: CoreBPE,
}

impl Chunker {
    /// Builds the tokenizer; its failure is reported as text.
    pub fn new() -> (r: Result<Chunker, String>) {
        match load_tokenizer() {
            Ok(tokenizer) => Ok(Chunker { tokenizer }),
            Err(e) => Err(e),
        }
    }

    /// Cuts `text` into chunks of at most `max_tokens` tokens each (as the
    /// splitter counts them), in document order; joined, they are `text`.
    pub fn chunk_document(&self, text: &str, max_tokens: usize) -> (r: Vec<Chunk>)
        requires
            max_tokens > 0,
        ensures
            chunks_tile(text@, r@),
            chunk_pairs(r@) == cl100k_split(text@, max_tokens as nat),
    {
        split_by_tokens(&self.tokenizer, text, max_tokens)
    }
}

} // verus!
