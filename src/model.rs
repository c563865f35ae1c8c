use vstd::prelude::*;

verus! {

/// The registry's answer to a crate search.
#[derive(Debug, Clone)]
pub struct SearchResp {
    pub crates: Vec<Crate>,
}

/// Registry metadata of one published crate.
#[derive(Debug, Clone)]
pub struct Crate {
    pub id: String,
    pub name: String,
    pub updated_at: String,
    pub created_at: String,
    pub downloads: i64,
    pub recent_downloads: i64,
    pub max_version: String,
    pub description: Option<String>,
    pub homepage: Option<String>,
    pub documentation: Option<String>,
    pub repository: Option<String>,
    pub exact_match: bool,
}

/// One documented item of a crate, as read from its documentation index:
/// the name that searches run against, the rendered path, the URL fragment
/// relative to the documentation root, and the one-line description.
#[derive(Debug, Clone)]
pub struct DocEntry {
    pub name: String,
    pub path: String,
    pub url: String,
    pub desc: String,
}

/// A symbol found by a search, with its final documentation URL.
#[derive(Debug, Clone)]
pub struct Symbol {
    pub path: String,
    pub description: String,
    pub url: String,
}

/// What the launcher displays for one result.
#[derive(Debug, Clone)]
pub struct OutputItem {
    pub title: String,
    pub subtitle: String,
    pub arg: String,
    pub autocomplete: Option<String>,
}

/// The text of a symbol as plain sequences: path, description, URL.
pub open spec fn symbol_view(s: Symbol) -> (Seq<char>, Seq<char>, Seq<char>) {
    (s.path@, s.description@, s.url@)
}

/// The text of an output item as plain sequences.
pub open spec fn item_view(i: OutputItem) -> (Seq<char>, Seq<char>, Seq<char>, Option<Seq<char>>) {
    (
        i.title@,
        i.subtitle@,
        i.arg@,
        match i.autocomplete {
            Some(a) => Some(a@),
            None => None,
        },
    )
}

} // verus!
