use vstd::prelude::*;
use crate::urls::{asset_url, asset_url_of, build_crate_url, crate_url_of};

verus! {

/// Why a documentation index could not be located.
#[derive(Debug, Clone, Copy, PartialEq, Eq)]
pub enum DocError {
    /// The landing page holds no script element whose source names the search index.
    MissingIndexRef,
}

/// The source path of the first script element of `body` whose `src`
/// attribute names the search index, if there is one.
pub uninterp spec fn index_script_src(body: Seq<char>) -> Option<Seq<char>>;

/// Relies on `regex::Regex::captures`: the first capture group of the leftmost
/// match of a fixed pattern, a function of `body` alone.
#[verifier::external_body]
fn find_index_src(body: &str) -> (r: Option<String>)
    ensures
        r.is_some() == index_script_src(body@).is_some(),
        r matches Some(s) ==> index_script_src(body@) == Some(s@),
{
    let re = regex::Regex::new(r#"<script[^</>]*?src="([^<>"]*?search-index[^</>"]*?)"[^</>]*?>"#)
        .unwrap();
    match re.captures(body) {
        Some(caps) => match caps.get(1) {
            Some(m) => Some(m.as_str().to_string()),
            None => None,
        },
        None => None,
    }
}

/// The index asset's URL, given the crate's landing page URL and the script
/// source found on that page (if any).
pub fn resolve_index_src(crate_url: &str, src: Option<String>) -> (r: Result<String, DocError>)
    ensures
        match src {
            Some(s) => r matches Ok(u) && u@ == asset_url_of(crate_url@, s@),
            None => r == Err::<String, DocError>(DocError::MissingIndexRef),
        },
{
    match src {
        Some(s) => Ok(asset_url(crate_url, s.as_str())),
        None => Err(DocError::MissingIndexRef),
    }
}

/// The URL of the search-index asset that the landing page `body` of
/// `crate_name` at `version` refers to, resolved against that page's URL.
pub fn index_asset_url(crate_name: &str, version: &str, body: &str) -> (r: Result<String, DocError>)
    ensures
        match index_script_src(body@) {
            Some(s) => r matches Ok(u) && u@ == asset_url_of(crate_url_of(crate_name@, version@), s),
            None => r == Err::<String, DocError>(DocError::MissingIndexRef),
        },
{
    let crate_url = build_crate_url(crate_name, version);
    let src = find_index_src(body);
    resolve_index_src(crate_url.as_str(), src)
}

} // verus!
