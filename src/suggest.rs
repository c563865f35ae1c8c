use vstd::prelude::*;
use vstd::string::StringExecFns;
use crate::model::Crate;

verus! {

/// What an invocation displays.
#[derive(Debug, Clone, Copy, PartialEq, Eq)]
pub enum Mode {
    /// One item per crate found for the name.
    CrateList,
    /// The symbols of the crate at this index of the search results.
    SymbolSearch(usize),
}

/// `i` is the first position of a crate named `name`.
pub open spec fn is_first_named(crates: Seq<Crate>, name: Seq<char>, i: int) -> bool {
    &&& 0 <= i < crates.len()
    &&& crates[i].name@ == name
    &&& forall|k: int| 0 <= k < i ==> crates[k].name@ != name
}

/// No crate is named `name`.
pub open spec fn none_named(crates: Seq<Crate>, name: Seq<char>) -> bool {
    forall|k: int| 0 <= k < crates.len() ==> crates[k].name@ != name
}

/// Position of the first crate whose name equals `name` exactly.
pub fn find_crate(crates: &Vec<Crate>, name: &str) -> (r: Option<usize>)
    ensures
        match r {
            Some(i) => is_first_named(crates@, name@, i as int),
            None => none_named(crates@, name@),
        },
{
    let target = String::from_str(name);
    let mut i: usize = 0;
    while i < crates.len()
        invariant
            target@ == name@,
            i <= crates@.len(),
            forall|k: int| 0 <= k < i ==> crates@[k].name@ != name@,
        decreases crates@.len() - i,
    {
        if crates[i].name == target {
            return Some(i);
        }
        i = i + 1;
    }
    None
}

/// Symbols are searched when a symbol query is given and a crate of exactly
/// the queried name is among the results; otherwise the crates are listed.
pub fn select_mode(crates: &Vec<Crate>, crate_name: &str, symbol: &str) -> (r: Mode)
    ensures
        symbol@.len() == 0 ==> r == Mode::CrateList,
        symbol@.len() > 0 ==> match r {
            Mode::SymbolSearch(i) => is_first_named(crates@, crate_name@, i as int),
            Mode::CrateList => none_named(crates@, crate_name@),
        },
{
    if symbol.is_empty() {
        return Mode::CrateList;
    }
    match find_crate(crates, crate_name) {
        Some(i) => Mode::SymbolSearch(i),
        None => Mode::CrateList,
    }
}

} // verus!
