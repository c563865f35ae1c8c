use vstd::prelude::*;
use vstd::string::StringExecFns;

verus! {

/// Host of the generated documentation.
pub const DOCS_RS_DOMAIN: &'static str = "https://docs.rs";

/// Registry search endpoint; the crate name is appended to it.
pub const SEARCH_URL: &'static str = "https://crates.io/api/v1/crates?q=";

/// `<docs-host>/<crate>/<version>/<crate>`: the landing page of a crate's documentation.
pub open spec fn crate_url_of(name: Seq<char>, version: Seq<char>) -> Seq<char> {
    DOCS_RS_DOMAIN@ + "/"@ + name + "/"@ + version + "/"@ + name
}

/// Landing page of the documentation of `crate_name` at `version`.
pub fn build_crate_url(crate_name: &str, version: &str) -> (r: String)
    ensures
        r@ == crate_url_of(crate_name@, version@),
{
    let mut s = String::from_str(DOCS_RS_DOMAIN);
    s.append("/");
    s.append(crate_name);
    s.append("/");
    s.append(version);
    s.append("/");
    s.append(crate_name);
    s
}

} // verus!

verus! {

/// `<crate-url>/../<fragment>`: one level above the crate's landing page.
pub open spec fn symbol_url_of(crate_url: Seq<char>, fragment: Seq<char>) -> Seq<char> {
    crate_url + "/../"@ + fragment
}

/// `<crate-url>/<src>`: an asset referenced from the landing page.
pub open spec fn asset_url_of(crate_url: Seq<char>, src: Seq<char>) -> Seq<char> {
    crate_url + "/"@ + src
}

/// Cache key of the crate list found for a name.
pub open spec fn crate_key_of(name: Seq<char>) -> Seq<char> {
    "crate:"@ + name
}

/// Cache key of the documentation index of a crate version.
pub open spec fn index_key_of(name: Seq<char>, version: Seq<char>) -> Seq<char> {
    "crate-search-index:"@ + name + ":"@ + version
}

impl crate::model::Crate {
    /// Landing page of this crate's documentation at its latest version.
    pub fn url(&self) -> (r: String)
        ensures
            r@ == crate_url_of(self.name@, self.max_version@),
    {
        build_crate_url(self.name.as_str(), self.max_version.as_str())
    }
}

/// Final documentation URL of a symbol whose relative fragment is `fragment`.
pub fn symbol_url(crate_url: &str, fragment: &str) -> (r: String)
    ensures
        r@ == symbol_url_of(crate_url@, fragment@),
{
    let mut s = String::from_str(crate_url);
    s.append("/../");
    s.append(fragment);
    s
}

/// URL of an asset referenced from a crate's landing page.
pub fn asset_url(crate_url: &str, src: &str) -> (r: String)
    ensures
        r@ == asset_url_of(crate_url@, src@),
{
    let mut s = String::from_str(crate_url);
    s.append("/");
    s.append(src);
    s
}

/// Registry search URL for a crate name.
pub fn search_url(crate_name: &str) -> (r: String)
    ensures
        r@ == SEARCH_URL@ + crate_name@,
{
    let mut s = String::from_str(SEARCH_URL);
    s.append(crate_name);
    s
}

/// Cache key under which the crate list for `crate_name` is stored.
pub fn crate_key(crate_name: &str) -> (r: String)
    ensures
        r@ == crate_key_of(crate_name@),
{
    let mut s = String::from_str("crate:");
    s.append(crate_name);
    s
}

/// Cache key under which the documentation index of a crate version is stored.
pub fn index_key(crate_name: &str, version: &str) -> (r: String)
    ensures
        r@ == index_key_of(crate_name@, version@),
{
    let mut s = String::from_str("crate-search-index:");
    s.append(crate_name);
    s.append(":");
    s.append(version);
    s
}

} // verus!
