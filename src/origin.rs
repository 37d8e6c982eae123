//! Where a new command's first source comes from: the built-in template, a
//! local file, or a URL.
use vstd::prelude::*;
use vstd::string::StringExecFns;
use crate::text::{has_prefix, starts_with};

verus! {

/// The source written for a command added without a source to start from.
pub const DEFAULT_TEMPLATE: &'static str = "\nfn main() {\n    println!(\"Hello, world!\");\n}\n";

/// Where the first content of a new command's source comes from.
pub enum SourceOrigin {
    /// The built-in greeting template.
    Template,
    /// A byte-for-byte copy of a local file.
    LocalCopy(String),
    /// The body of an HTTP(S) response.
    RemoteFetch(String),
}

/// `http://`
pub open spec fn http_scheme() -> Seq<char> {
    seq!['h', 't', 't', 'p', ':', '/', '/']
}

/// `https://`
pub open spec fn https_scheme() -> Seq<char> {
    seq!['h', 't', 't', 'p', 's', ':', '/', '/']
}

/// A source argument names a URL when it opens with an HTTP(S) scheme.
pub open spec fn is_url(s: Seq<char>) -> bool {
    starts_with(s, http_scheme()) || starts_with(s, https_scheme())
}

/// Resolves the optional source argument of `add` once, up front.
pub fn resolve_origin(source: Option<String>) -> (r: SourceOrigin)
    ensures
        source is None ==> r is Template,
        source matches Some(s) ==> if is_url(s@) {
            r matches SourceOrigin::RemoteFetch(u) && u@ == s@
        } else {
            r matches SourceOrigin::LocalCopy(p) && p@ == s@
        },
{
    proof {
        reveal_strlit("http://");
        reveal_strlit("https://");
        assert("http://"@ =~= http_scheme());
        assert("https://"@ =~= https_scheme());
    }
    match source {
        None => SourceOrigin::Template,
        Some(s) => {
            if has_prefix(s.as_str(), "http://") || has_prefix(s.as_str(), "https://") {
                SourceOrigin::RemoteFetch(s)
            } else {
                SourceOrigin::LocalCopy(s)
            }
        },
    }
}

/// The source text of the built-in template.
pub fn default_template() -> (r: String)
    ensures
        r@ == DEFAULT_TEMPLATE@,
{
    String::from_str(DEFAULT_TEMPLATE)
}

/// Whether an HTTP response status counts as a successful fetch (2xx).
pub fn fetch_succeeded(status: u16) -> (r: bool)
    ensures
        r == (200 <= status && status <= 299),
{
    200 <= status && status <= 299
}

} // verus!
