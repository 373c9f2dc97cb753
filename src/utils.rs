//! Where the backend lives and how its URLs are formed.
use vstd::prelude::*;
use vstd::string::*;
use crate::text::{strip_end, strip_start, trim_end_char, trim_start_char};

verus! {

/// The backend origin used when the build names none.
pub open spec fn default_origin() -> Seq<char> {
    "http://127.0.0.1:8080"@
}

/// An origin and a path joined by exactly one `/`.
pub open spec fn joined(origin: Seq<char>, path: Seq<char>) -> Seq<char> {
    strip_end(origin, '/') + seq!['/'] + strip_start(path, '/')
}

/// The default backend origin.
pub fn backend_origin() -> (r: &'static str)
    ensures
        r@ == default_origin(),
{
    "http://127.0.0.1:8080"
}

/// The origin named at build time, else the default one.
pub fn resolve_origin(configured: Option<&str>) -> (r: &str)
    ensures
        r@ == match configured {
            Some(o) => o@,
            None => default_origin(),
        },
{
    match configured {
        Some(o) => o,
        None => backend_origin(),
    }
}

/// Joins `origin` and `path` with one `/` between them, whatever slashes
/// the origin ends with and the path starts with.
pub fn api_url_at(origin: &str, path: &str) -> (r: String)
    ensures
        r@ == joined(origin@, path@),
{
    let head = trim_end_char(origin, '/');
    let tail = trim_start_char(path, '/');
    let r = String::from_str(head).concat("/").concat(tail);
    proof {
        reveal_strlit("/");
    }
    assert(r@ =~= joined(origin@, path@));
    r
}

/// The URL of `path` at the default backend origin.
pub fn api_url(path: &str) -> (r: String)
    ensures
        r@ == joined(default_origin(), path@),
{
    api_url_at(backend_origin(), path)
}

} // verus!
