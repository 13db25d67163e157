//! A bilingual word-lookup library: the dictionary entry model, the decoding of
//! dictionary records, case-insensitive headword search and result rendering.
pub mod codec;
pub mod entry;
pub mod load;
pub mod lookup;
pub mod render;
pub mod text;
