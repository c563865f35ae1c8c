use docsrs::model::DocEntry;
use docsrs::search::{is_subsequence, search_symbol, search_symbols};

fn entry(name: &str, path: &str, url: &str, desc: &str) -> DocEntry {
    DocEntry { name: name.to_string(), path: path.to_string(), url: url.to_string(), desc: desc.to_string() }
}

fn sample() -> Vec<DocEntry> {
    vec![
        entry("block_on", "async_std::task::block_on", "async_std/task/fn.block_on.html", "Spawns a task and blocks"),
        entry("spawn", "async_std::task::spawn", "async_std/task/fn.spawn.html", "Spawns a task."),
        entry("spawn_blocking", "async_std::task::spawn_blocking", "async_std/task/fn.spawn_blocking.html", "Spawns a blocking task."),
        entry("task", "async_std::task", "async_std/task/index.html", "Types and traits for working with asynchronous tasks."),
    ]
}

#[test]
fn subsequence_skips_characters() {
    assert!(is_subsequence("spwn", "async_std::task::spawn"));
}

#[test]
fn subsequence_keeps_order() {
    assert!(!is_subsequence("nps", "async_std::task::spawn"));
}

#[test]
fn subsequence_is_case_sensitive() {
    assert!(!is_subsequence("Spawn", "spawn"));
    assert!(is_subsequence("Spawn", "Spawn"));
}

#[test]
fn subsequence_edge_cases() {
    assert!(is_subsequence("", ""));
    assert!(is_subsequence("", "abc"));
    assert!(!is_subsequence("a", ""));
    assert!(!is_subsequence("abcd", "abc"));
    assert!(is_subsequence("éz", "aébz"));
    assert!(!is_subsequence("zé", "aébz"));
}

#[test]
fn search_matches_by_name_in_index_order() {
    let found = search_symbols(&sample(), "spwn", "https://docs.rs/async-std/1.2.0/async-std");
    assert_eq!(found.len(), 2);
    assert_eq!(found[0].path, "async_std::task::spawn");
    assert_eq!(found[0].description, "Spawns a task.");
    assert_eq!(found[0].url, "https://docs.rs/async-std/1.2.0/async-std/../async_std/task/fn.spawn.html");
    assert_eq!(found[1].path, "async_std::task::spawn_blocking");
}

#[test]
fn search_without_match_is_empty() {
    assert!(search_symbols(&sample(), "nps", "u").is_empty());
    assert!(search_symbols(&Vec::new(), "a", "u").is_empty());
}

#[test]
fn empty_query_returns_every_entry_in_order() {
    let all = sample();
    let found = search_symbols(&all, "", "base");
    assert_eq!(found.len(), all.len());
    for (s, e) in found.iter().zip(all.iter()) {
        assert_eq!(s.path, e.path);
        assert_eq!(s.description, e.desc);
        assert_eq!(s.url, format!("base/../{}", e.url));
    }
}

#[test]
fn search_symbol_builds_urls_under_the_version() {
    let entries = vec![entry("spawn", "async_std::spawn", "fn.spawn.html", "")];
    let found = search_symbol(&entries, "async-std", "1.2.0", "spawn");
    assert_eq!(found.len(), 1);
    assert_eq!(found[0].url, "https://docs.rs/async-std/1.2.0/async-std/../fn.spawn.html");
}

#[test]
fn search_case_sensitive_on_names() {
    let entries = vec![entry("spawn", "a::spawn", "fn.spawn.html", ""), entry("Spawner", "a::Spawner", "struct.Spawner.html", "")];
    let found = search_symbols(&entries, "Spawn", "u");
    assert_eq!(found.len(), 1);
    assert_eq!(found[0].path, "a::Spawner");
}
