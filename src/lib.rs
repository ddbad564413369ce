//! Batch cleanup of OCR'd book text through a language-model endpoint.
//!
//! The library holds the decisions of the tool: how a document is cut into
//! token-bounded chunks, how one chunk is dispatched with bounded retries and
//! exponential backoff, and how each cleaned chunk is rendered into the
//! per-file YAML output document.
pub mod book;
pub mod chunking;
pub mod driver;
pub mod files;
pub mod retry;
pub mod yaml;
