use vstd::prelude::*;
use vstd::string::StringExecFns;
use crate::model::{Crate, OutputItem, Symbol, item_view, symbol_view};
use crate::urls::crate_url_of;

verus! {

/// The decimal digit `d` (`d < 10`).
pub open spec fn digit_char(d: nat) -> char {
    seq!['0', '1', '2', '3', '4', '5', '6', '7', '8', '9'][d as int]
}

/// Decimal digits of a natural number, most significant first, no leading zeros.
pub open spec fn digits_of(n: nat) -> Seq<char>
    decreases n,
{
    if n < 10 {
        seq![digit_char(n)]
    } else {
        digits_of(n / 10).push(digit_char(n % 10))
    }
}

/// Decimal text of an integer, with a leading `-` when it is negative.
pub open spec fn decimal_of(n: int) -> Seq<char> {
    if n < 0 {
        seq!['-'] + digits_of((-n) as nat)
    } else {
        digits_of(n as nat)
    }
}

/// Relies on `i64`'s `Display` (through `to_string`): plain decimal digits,
/// a leading `-` for negative numbers, no padding.
#[verifier::external_body]
fn decimal(n: i64) -> (r: String)
    ensures
        r@ == decimal_of(n as int),
{
    n.to_string()
}

/// Text of an optional string, empty when absent.
pub open spec fn text_or_empty(s: Option<String>) -> Seq<char> {
    match s {
        Some(t) => t@,
        None => Seq::empty(),
    }
}

/// The launcher item of a crate: titled `<name>-<version>`, with the recent and
/// total downloads and the description below, the documentation URL as its
/// argument and `<name> ` as its completion.
pub open spec fn crate_item_of(c: Crate) -> (Seq<char>, Seq<char>, Seq<char>, Option<Seq<char>>) {
    (
        c.name@ + "-"@ + c.max_version@,
        "["@ + decimal_of(c.recent_downloads as int) + "/"@ + decimal_of(c.downloads as int) + "]"@
            + text_or_empty(c.description),
        crate_url_of(c.name@, c.max_version@),
        Some(c.name@ + " "@),
    )
}

/// The launcher item of a symbol: its path, its description, its URL.
pub open spec fn symbol_item_of(s: (Seq<char>, Seq<char>, Seq<char>)) -> (
    Seq<char>,
    Seq<char>,
    Seq<char>,
    Option<Seq<char>>,
) {
    (s.0, s.1, s.2, None)
}

/// Launcher item of one crate.
pub fn crate_item(c: &Crate) -> (r: OutputItem)
    ensures
        item_view(r) == crate_item_of(*c),
{
    let mut title = c.name.clone();
    title.append("-");
    title.append(c.max_version.as_str());
    let mut subtitle = String::from_str("[");
    let recent = decimal(c.recent_downloads);
    subtitle.append(recent.as_str());
    subtitle.append("/");
    let total = decimal(c.downloads);
    subtitle.append(total.as_str());
    subtitle.append("]");
    match &c.description {
        Some(d) => subtitle.append(d.as_str()),
        None => {},
    }
    let mut complete = c.name.clone();
    complete.append(" ");
    OutputItem { title, subtitle, arg: c.url(), autocomplete: Some(complete) }
}

/// Launcher item of one symbol.
pub fn symbol_item(s: &Symbol) -> (r: OutputItem)
    ensures
        item_view(r) == symbol_item_of(symbol_view(*s)),
{
    OutputItem {
        title: s.path.clone(),
        subtitle: s.description.clone(),
        arg: s.url.clone(),
        autocomplete: None,
    }
}

/// One launcher item per crate, in the order given.
pub fn crate_items(crates: &Vec<Crate>) -> (r: Vec<OutputItem>)
    ensures
        r@.map_values(|o: OutputItem| item_view(o)) == crates@.map_values(
            |c: Crate| crate_item_of(c),
        ),
{
    let mut out: Vec<OutputItem> = Vec::new();
    let mut i: usize = 0;
    while i < crates.len()
        invariant
            i <= crates@.len(),
            out@.len() == i,
            forall|k: int| 0 <= k < i ==> item_view(#[trigger] out@[k]) == crate_item_of(crates@[k]),
        decreases crates@.len() - i,
    {
        let item = crate_item(&crates[i]);
        out.push(item);
        i = i + 1;
    }
    assert(out@.map_values(|o: OutputItem| item_view(o)) =~= crates@.map_values(|c: Crate| crate_item_of(c)));
    out
}

/// One launcher item per symbol, in the order given.
pub fn symbol_items(symbols: &Vec<Symbol>) -> (r: Vec<OutputItem>)
    ensures
        r@.map_values(|o: OutputItem| item_view(o)) == symbols@.map_values(
            |s: Symbol| symbol_item_of(symbol_view(s)),
        ),
{
    let mut out: Vec<OutputItem> = Vec::new();
    let mut i: usize = 0;
    while i < symbols.len()
        invariant
            i <= symbols@.len(),
            out@.len() == i,
            forall|k: int| 0 <= k < i ==> item_view(#[trigger] out@[k]) == symbol_item_of(symbol_view(symbols@[k])),
        decreases symbols@.len() - i,
    {
        let item = symbol_item(&symbols[i]);
        out.push(item);
        i = i + 1;
    }
    assert(out@.map_values(|o: OutputItem| item_view(o)) =~= symbols@.map_values(|s: Symbol| symbol_item_of(symbol_view(s))));
    out
}

} // verus!
