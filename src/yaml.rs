//! The output document of one source file, in YAML:
//!
//! ```yaml
//! chunks:
//!   - |-
//!     cleaned line 1
//!     cleaned line 2
//! ```
//!
//! The document only ever grows: a header, then one block-literal list entry
//! per accepted chunk, each line of the chunk indented under it.
use vstd::prelude::*;

verus! {

/// The header written when a source file is taken up: `chunks:` and a newline.
pub open spec fn header_spec() -> Seq<char> {
    seq!['c', 'h', 'u', 'n', 'k', 's', ':', '\n']
}

/// The first line of an entry: two spaces, `- |-` and a newline.
pub open spec fn entry_head() -> Seq<char> {
    seq![' ', ' ', '-', ' ', '|', '-', '\n']
}

/// The first position at or after `k` that holds a newline, or `t.len()`.
pub open spec fn next_newline(t: Seq<char>, k: int) -> int
    decreases t.len() - k,
{
    if k < 0 || k >= t.len() {
        t.len() as int
    } else if t[k] == '\n' {
        k
    } else {
        next_newline(t, k + 1)
    }
}

proof fn next_newline_bounds(t: Seq<char>, k: int)
    requires
        0 <= k <= t.len(),
    ensures
        k <= next_newline(t, k) <= t.len(),
        next_newline(t, k) < t.len() ==> t[next_newline(t, k)] == '\n',
    decreases t.len() - k,
{
    if k < t.len() && t[k] != '\n' {
        next_newline_bounds(t, k + 1);
    }
}

/// A line without the carriage return that ends it, if any (only a line that
/// a newline ends loses it: `\r\n` is a line break, a bare `\r` is text).
pub open spec fn strip_cr(l: Seq<char>) -> Seq<char> {
    if l.len() > 0 && l.last() == '\r' {
        l.drop_last()
    } else {
        l
    }
}

/// One line of a chunk as it stands in an entry: four spaces, the line, a
/// newline.
pub open spec fn line_block(l: Seq<char>) -> Seq<char> {
    seq![' ', ' ', ' ', ' '] + l + seq!['\n']
}

/// The line of `t` that starts at `s` and ends before position `i`: a line
/// that a newline ends drops a carriage return before it.
pub open spec fn line_of(t: Seq<char>, s: int, i: int) -> Seq<char> {
    if i < t.len() {
        strip_cr(t.subrange(s, i))
    } else {
        t.subrange(s, i)
    }
}

/// The indented lines of `t` from position `s` on. A line ends at a newline;
/// a newline at the very end starts no further line.
pub open spec fn render_from(t: Seq<char>, s: int) -> Seq<char>
    decreases t.len() + 1 - s,
{
    if s < 0 || s >= t.len() || next_newline(t, s) < s || next_newline(t, s) > t.len() {
        Seq::empty()
    } else {
        line_block(line_of(t, s, next_newline(t, s))) + render_from(t, next_newline(t, s) + 1)
    }
}

/// The entry of one cleaned chunk: the entry head, then each of its lines.
pub open spec fn entry_spec(t: Seq<char>) -> Seq<char> {
    entry_head() + render_from(t, 0)
}

/// Appends the header of an output document to `doc`.
pub fn push_header(doc: &mut String)
    ensures
        final(doc)@ == old(doc)@ + header_spec(),
{
    proof {
        reveal_strlit("chunks:\n");
    }
    doc.append("chunks:\n");
    assert(final(doc)@ =~= old(doc)@ + header_spec());
}

/// Appends the entry of the cleaned chunk `text` to `doc`. Nothing already in
/// `doc` changes, and nothing is ever merged: each call adds one entry.
pub fn push_entry(doc: &mut String, text: &str)
    ensures
        final(doc)@ == old(doc)@ + entry_spec(text@),
{
    let ghost base = doc@;
    proof {
        reveal_strlit("  - |-\n");
    }
    doc.append("  - |-\n");
    assert(doc@ =~= base + entry_head());
    let n = text.unicode_len();
    let mut s: usize = 0;
    while s < n
        invariant
            n == text@.len(),
            s <= n,
            base + entry_spec(text@) == doc@ + render_from(text@, s as int),
        decreases n - s,
    {
        let mut j: usize = s;
        while j < n && text.get_char(j) != '\n'
            invariant
                n == text@.len(),
                s <= j <= n,
                next_newline(text@, s as int) == next_newline(text@, j as int),
            decreases n - j,
        {
            j = j + 1;
        }
        let mut e: usize = j;
        if j < n && e > s && text.get_char(e - 1) == '\r' {
            e = e - 1;
        }
        let line = text.substring_char(s, e);
        assert(line@ == line_of(text@, s as int, j as int)) by {
            if e < j {
                assert(text@.subrange(s as int, j as int).drop_last() =~= text@.subrange(s as int, e as int));
            }
        }
        let ghost before = doc@;
        proof {
            reveal_strlit("    ");
            reveal_strlit("\n");
            next_newline_bounds(text@, s as int);
        }
        doc.append("    ");
        doc.append(line);
        doc.append("\n");
        assert(doc@ =~= before + line_block(line_of(text@, s as int, j as int)));
        assert(render_from(text@, s as int) =~= line_block(line_of(text@, s as int, j as int))
            + render_from(text@, j + 1));
        if j < n {
            s = j + 1;
        } else {
            s = n;
        }
    }
}

/// The header of an output document.
pub fn header() -> (r: String)
    ensures
        r@ == header_spec(),
{
    let mut r = String::new();
    push_header(&mut r);
    r
}

/// The entry of the cleaned chunk `text`, ready to be appended to its document.
pub fn render_entry(text: &str) -> (r: String)
    ensures
        r@ == entry_spec(text@),
{
    let mut r = String::new();
    push_entry(&mut r, text);
    r
}

/// Records the outcome of dispatching one chunk: a cleaned text becomes a new
/// entry; "no content" leaves the document as it was.
pub fn record_result(doc: &mut String, result: Option<String>)
    ensures
        result.is_none() ==> final(doc)@ == old(doc)@,
        result.is_some() ==> final(doc)@ == old(doc)@ + entry_spec(result.unwrap()@),
{
    if let Some(text) = result {
        push_entry(doc, text.as_str());
    }
}

/// The entries of the outcomes `rs`, in order: one per cleaned text, none for
/// "no content".
pub open spec fn entries_spec(rs: Seq<Option<String>>) -> Seq<char>
    decreases rs.len(),
{
    if rs.len() == 0 {
        Seq::empty()
    } else {
        entries_spec(rs.drop_last()) + match rs.last() {
            Some(t) => entry_spec(t@),
            None => Seq::empty(),
        }
    }
}

/// The whole output document of a source file whose chunks were dispatched
/// with the outcomes `results`, in chunk order.
pub fn render_document(results: &Vec<Option<String>>) -> (r: String)
    ensures
        r@ == header_spec() + entries_spec(results@),
{
    let mut doc = header();
    let mut i: usize = 0;
    while i < results.len()
        invariant
            i <= results@.len(),
            doc@ == header_spec() + entries_spec(results@.subrange(0, i as int)),
        decreases results@.len() - i,
    {
        let ghost before = doc@;
        match &results[i] {
            Some(t) => push_entry(&mut doc, t.as_str()),
            None => {},
        }
        assert(results@.subrange(0, i + 1).drop_last() =~= results@.subrange(0, i as int));
        i = i + 1;
    }
    assert(results@.subrange(0, i as int) =~= results@);
    doc
}

/// Appending is never deduplicated: appending the same cleaned text twice
/// leaves two identical, non-empty entries after what was there, each
/// beginning with an entry head.
pub proof fn append_twice_gives_two_entries(doc: Seq<char>, text: Seq<char>)
    ensures
        entry_spec(text).len() > 0,
        entry_spec(text).subrange(0, 7) == entry_head(),
        (doc + entry_spec(text) + entry_spec(text)).len() == doc.len() + 2 * entry_spec(text).len(),
{
    assert(entry_spec(text).subrange(0, 7) =~= entry_head());
}

} // verus!
