use vstd::prelude::*;
use vstd::string::StrSliceExecFns;
use crate::model::{DocEntry, Symbol, symbol_view};
use crate::urls::{build_crate_url, crate_url_of, symbol_url, symbol_url_of};

verus! {

/// `q` occurs in `t` in order, not necessarily contiguously; case-sensitive.
pub open spec fn is_subseq(q: Seq<char>, t: Seq<char>) -> bool
    decreases t.len(),
{
    if q.len() == 0 {
        true
    } else if t.len() == 0 {
        false
    } else if q[0] == t[0] {
        is_subseq(q.skip(1), t.skip(1))
    } else {
        is_subseq(q, t.skip(1))
    }
}

/// The symbol that a matching entry yields under the crate URL `crate_url`.
pub open spec fn entry_symbol(e: DocEntry, crate_url: Seq<char>) -> (Seq<char>, Seq<char>, Seq<char>) {
    (e.path@, e.desc@, symbol_url_of(crate_url, e.url@))
}

/// The symbols of the entries whose name holds `q` as a subsequence,
/// in the order of the entries.
pub open spec fn search_spec(entries: Seq<DocEntry>, q: Seq<char>, crate_url: Seq<char>) -> Seq<
    (Seq<char>, Seq<char>, Seq<char>),
>
    decreases entries.len(),
{
    if entries.len() == 0 {
        seq![]
    } else {
        let rest = search_spec(entries.drop_last(), q, crate_url);
        if is_subseq(q, entries.last().name@) {
            rest.push(entry_symbol(entries.last(), crate_url))
        } else {
            rest
        }
    }
}

/// Whether the characters of `query` occur, in order, in `text`.
pub fn is_subsequence(query: &str, text: &str) -> (r: bool)
    ensures
        r == is_subseq(query@, text@),
{
    let qn = query.unicode_len();
    let tn = text.unicode_len();
    let mut j: usize = 0;
    let mut i: usize = 0;
    assert(query@.skip(0) =~= query@);
    assert(text@.skip(0) =~= text@);
    while i < tn && j < qn
        invariant
            qn == query@.len(),
            tn == text@.len(),
            i <= tn,
            j <= qn,
            is_subseq(query@, text@) == is_subseq(query@.skip(j as int), text@.skip(i as int)),
        decreases tn - i,
    {
        proof {
            let q = query@.skip(j as int);
            let t = text@.skip(i as int);
            assert(q.skip(1) =~= query@.skip(j + 1));
            assert(t.skip(1) =~= text@.skip(i + 1));
        }
        if query.get_char(j) == text.get_char(i) {
            j = j + 1;
        }
        i = i + 1;
    }
    if j < qn {
        assert(text@.skip(i as int).len() == 0);
    }
    j == qn
}

/// The symbols of the entries whose name holds `query` as a subsequence, in the
/// order of `entries`, each with its URL resolved under `crate_url`.
pub fn search_symbols(entries: &Vec<DocEntry>, query: &str, crate_url: &str) -> (r: Vec<Symbol>)
    ensures
        r@.map_values(|s: Symbol| symbol_view(s)) == search_spec(entries@, query@, crate_url@),
{
    let mut out: Vec<Symbol> = Vec::new();
    let mut i: usize = 0;
    while i < entries.len()
        invariant
            i <= entries@.len(),
            out@.map_values(|s: Symbol| symbol_view(s)) == search_spec(
                entries@.subrange(0, i as int),
                query@,
                crate_url@,
            ),
        decreases entries@.len() - i,
    {
        let e = &entries[i];
        assert(entries@.subrange(0, i + 1).drop_last() =~= entries@.subrange(0, i as int));
        if is_subsequence(query, e.name.as_str()) {
            let url = symbol_url(crate_url, e.url.as_str());
            let s = Symbol { path: e.path.clone(), description: e.desc.clone(), url };
            out.push(s);
            assert(out@.map_values(|s: Symbol| symbol_view(s)) =~= search_spec(
                entries@.subrange(0, i as int),
                query@,
                crate_url@,
            ).push(entry_symbol(entries@[i as int], crate_url@)));
        }
        i = i + 1;
    }
    assert(entries@.subrange(0, entries@.len() as int) =~= entries@);
    out
}

/// The symbols of a crate version's documentation entries whose name holds
/// `symbol_name` as a subsequence, linked under that version's documentation.
pub fn search_symbol(entries: &Vec<DocEntry>, crate_name: &str, version: &str, symbol_name: &str) -> (r:
    Vec<Symbol>)
    ensures
        r@.map_values(|s: Symbol| symbol_view(s)) == search_spec(
            entries@,
            symbol_name@,
            crate_url_of(crate_name@, version@),
        ),
{
    let crate_url = build_crate_url(crate_name, version);
    search_symbols(entries, symbol_name, crate_url.as_str())
}

/// With an empty query every entry matches, and the symbols come in the
/// order of the entries.
pub proof fn lemma_empty_query_matches_all(entries: Seq<DocEntry>, crate_url: Seq<char>)
    ensures
        search_spec(entries, Seq::empty(), crate_url) == entries.map_values(
            |e: DocEntry| entry_symbol(e, crate_url),
        ),
    decreases entries.len(),
{
    if entries.len() > 0 {
        lemma_empty_query_matches_all(entries.drop_last(), crate_url);
        assert(entries.drop_last().map_values(|e: DocEntry| entry_symbol(e, crate_url)).push(
            entry_symbol(entries.last(), crate_url),
        ) =~= entries.map_values(|e: DocEntry| entry_symbol(e, crate_url)));
    } else {
        assert(entries.map_values(|e: DocEntry| entry_symbol(e, crate_url)) =~= Seq::empty());
    }
}

} // verus!
