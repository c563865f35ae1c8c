use docsrs::docindex::{index_asset_url, resolve_index_src, DocError};

#[test]
fn finds_search_index_script() {
    let body = r#"<html><head><script src="../main.js"></script><script defer src="../search-index20191213.js"></script></head></html>"#;
    assert_eq!(
        index_asset_url("async-std", "1.2.0", body),
        Ok("https://docs.rs/async-std/1.2.0/async-std/../search-index20191213.js".to_string())
    );
}

#[test]
fn missing_search_index_is_an_error() {
    let body = r#"<html><script src="../main.js"></script></html>"#;
    assert_eq!(index_asset_url("async-std", "1.2.0", body), Err(DocError::MissingIndexRef));
    assert_eq!(index_asset_url("a", "1", ""), Err(DocError::MissingIndexRef));
}

#[test]
fn resolve_src_cases() {
    assert_eq!(resolve_index_src("base", Some("x.js".to_string())), Ok("base/x.js".to_string()));
    assert_eq!(resolve_index_src("base", None), Err(DocError::MissingIndexRef));
}
