use awful_book_sanitizer::chunking::{Chunker, MAX_TOKENS};

fn sample() -> String {
    let mut s = String::new();
    for i in 0..40 {
        s.push_str(&format!("Sentence number {} of the scanned page.  ", i));
        if i % 7 == 6 {
            s.push_str("\n\n");
        }
    }
    s
}

#[test]
fn chunks_tile_document() {
    let chunker = Chunker::new().unwrap();
    let text = sample();
    let chars: Vec<char> = text.chars().collect();
    let chunks = chunker.chunk_document(&text, 20);
    assert!(chunks.len() > 1);
    let mut pos = 0;
    let mut joined = String::new();
    for c in &chunks {
        assert!(!c.text.is_empty());
        assert_eq!(c.offset, pos);
        let at: String = chars[c.offset..c.offset + c.text.chars().count()].iter().collect();
        assert_eq!(at, c.text);
        joined.push_str(&c.text);
        pos = c.offset + c.text.chars().count();
    }
    assert_eq!(pos, chars.len());
    assert_eq!(joined, text);
}

#[test]
fn short_text_is_one_chunk() {
    let chunker = Chunker::new().unwrap();
    let chunks = chunker.chunk_document("  A short page.\n", MAX_TOKENS);
    assert_eq!(chunks.len(), 1);
    assert_eq!(chunks[0].offset, 0);
    assert_eq!(chunks[0].text, "  A short page.\n");
}

#[test]
fn empty_text_has_no_chunks() {
    let chunker = Chunker::new().unwrap();
    assert!(chunker.chunk_document("", MAX_TOKENS).is_empty());
}

#[test]
fn white_space_is_kept_in_chunks() {
    let chunker = Chunker::new().unwrap();
    let chunks = chunker.chunk_document("   \n", MAX_TOKENS);
    assert_eq!(chunks.len(), 1);
    assert_eq!(chunks[0].text, "   \n");
}
