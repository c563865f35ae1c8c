use docsrs::items::{crate_item, crate_items, symbol_item, symbol_items};
use docsrs::model::{Crate, Symbol};
use docsrs::suggest::{find_crate, select_mode, Mode};

fn krate(name: &str, version: &str, exact: bool) -> Crate {
    Crate {
        id: name.to_string(),
        name: name.to_string(),
        updated_at: "2020-01-01".to_string(),
        created_at: "2019-01-01".to_string(),
        downloads: 12345,
        recent_downloads: 678,
        max_version: version.to_string(),
        description: Some("Async version of the Rust standard library".to_string()),
        homepage: None,
        documentation: None,
        repository: None,
        exact_match: exact,
    }
}

fn results() -> Vec<Crate> {
    vec![krate("async-std-resolver", "0.19.0", false), krate("async-std", "1.2.0", true), krate("async-std", "0.99.0", false)]
}

#[test]
fn exact_name_selects_symbol_search() {
    assert_eq!(select_mode(&results(), "async-std", "spawn"), Mode::SymbolSearch(1));
}

#[test]
fn no_exact_name_falls_back_to_crate_list() {
    assert_eq!(select_mode(&results(), "async-", "spawn"), Mode::CrateList);
}

#[test]
fn empty_symbol_lists_crates() {
    assert_eq!(select_mode(&results(), "async-std", ""), Mode::CrateList);
}

#[test]
fn exact_match_flag_is_not_consulted() {
    let crates = vec![krate("async-standard", "1.0.0", true)];
    assert_eq!(select_mode(&crates, "async-std", "spawn"), Mode::CrateList);
}

#[test]
fn find_crate_takes_first_equal_name() {
    assert_eq!(find_crate(&results(), "async-std"), Some(1));
    assert_eq!(find_crate(&results(), "async"), None);
    assert_eq!(find_crate(&Vec::new(), ""), None);
}

#[test]
fn crate_list_items_titled_name_version() {
    let crates = vec![krate("async-std", "1.2.0", false), krate("async-io", "0.1.0", false)];
    let items = crate_items(&crates);
    assert_eq!(items.len(), 2);
    assert_eq!(items[0].title, "async-std-1.2.0");
    assert_eq!(items[1].title, "async-io-0.1.0");
}

#[test]
fn crate_item_fields() {
    let item = crate_item(&krate("async-std", "1.2.0", true));
    assert_eq!(item.title, "async-std-1.2.0");
    assert_eq!(item.subtitle, "[678/12345]Async version of the Rust standard library");
    assert_eq!(item.arg, "https://docs.rs/async-std/1.2.0/async-std");
    assert_eq!(item.autocomplete, Some("async-std ".to_string()));
}

#[test]
fn crate_item_without_description() {
    let mut c = krate("x", "0.1.0", false);
    c.description = None;
    c.downloads = 0;
    c.recent_downloads = -7;
    assert_eq!(crate_item(&c).subtitle, "[-7/0]");
}

#[test]
fn symbol_item_fields() {
    let s = Symbol { path: "a::b".to_string(), description: "d".to_string(), url: "u".to_string() };
    let item = symbol_item(&s);
    assert_eq!(item.title, "a::b");
    assert_eq!(item.subtitle, "d");
    assert_eq!(item.arg, "u");
    assert_eq!(item.autocomplete, None);
    assert_eq!(symbol_items(&vec![s.clone(), s]).len(), 2);
}
