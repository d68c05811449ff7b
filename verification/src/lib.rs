//! A single-file persistence format for `flowmark` documents.
//!
//! A document is stored as a compressed container (a zip archive) holding one
//! member, `document.json`, whose content is the document's JSON text. The
//! text must carry a `format` field equal to `"flowmark"` for a load to
//! succeed. Encoding builds the container bytes; decoding reads them back and
//! validates the format tag. File input and output around these bytes is left
//! to the caller.

pub mod codec;
pub mod errors;
pub mod flm;
pub mod tag;
