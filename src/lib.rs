//! Lookup of crates and of the symbols in their generated documentation:
//! URL and cache-key construction, a persistent read-through cache, mode
//! selection, subsequence symbol search and the mapping of records to
//! launcher items.
pub mod cache;
pub mod docindex;
pub mod items;
pub mod model;
pub mod search;
pub mod suggest;
pub mod urls;
