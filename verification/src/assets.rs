//! Serving the embedded web front end: which asset a request path names,
//! which one is sent back, and with what media type.
use vstd::prelude::*;
use vstd::string::*;
use crate::text::{lemma_without_leading_slashes, owned, strip_leading_slashes, without_leading_slashes};

verus! {

/// The page served for the root path and for any path that names no asset.
pub open spec fn index_page() -> Seq<char> {
    "index.html"@
}

/// The media type that `mime_guess` reports first for a path, or
/// `application/octet-stream` when it knows none.
pub uninterp spec fn guessed_mime(path: Seq<char>) -> Seq<char>;

/// Calls `mime_guess::from_path(path).first_or_octet_stream()` and renders the
/// media type as text. The guess looks only at the extension of the path, so
/// the result is a function of the path. Claimed beyond that: a path with no
/// '.' has no extension and gets `application/octet-stream`, and `index.html`
/// gets `text/html`, as the crate's table maps `html`.
#[verifier::external_body]
fn guess_mime(path: &str) -> (m: String)
    ensures
        m@ == guessed_mime(path@),
        !path@.contains('.') ==> m@ == "application/octet-stream"@,
        path@ == index_page() ==> m@ == "text/html"@,
{
    let mime = mime_guess::from_path(path).first_or_octet_stream();
    AsRef::<str>::as_ref(&mime).to_string()
}

/// The asset that a request path names: the path without its leading slashes,
/// or the index page when nothing is left.
pub open spec fn asset_name_of(uri_path: Seq<char>) -> Seq<char> {
    let p = without_leading_slashes(uri_path);
    if p.len() == 0 {
        index_page()
    } else {
        p
    }
}

/// Resolves the path of a request to the name of the asset it asks for.
pub fn asset_name(uri_path: &str) -> (name: String)
    ensures
        name@ == asset_name_of(uri_path@),
{
    let p = strip_leading_slashes(uri_path);
    if p.is_empty() {
        proof { reveal_strlit("index.html"); }
        owned("index.html")
    } else {
        owned(p)
    }
}

/// What the asset handler answers.
pub enum StaticReply {
    /// Send the named asset with the given media type.
    Asset { name: String, mime: String },
    /// Neither the asset nor the index page exists.
    NotFound,
}

impl StaticReply {
    /// The HTTP status of the answer.
    pub fn status_code(&self) -> (code: u16)
        ensures
            code == (if self is NotFound { 404u16 } else { 200u16 }),
    {
        match self {
            StaticReply::Asset { .. } => 200,
            StaticReply::NotFound => 404,
        }
    }

    /// The body sent when nothing is found.
    pub fn not_found_body() -> (body: &'static str)
        ensures
            body@ == "404 Not Found"@,
    {
        "404 Not Found"
    }
}

/// Chooses the answer for the asset `name`: the asset itself when it exists,
/// else the index page when that exists, else "not found". The media type is
/// guessed from the name of the asset that is sent.
pub fn static_reply(name: &str, asset_found: bool, index_found: bool) -> (reply: StaticReply)
    ensures
        asset_found ==> (reply matches StaticReply::Asset { name: n, mime: m }
            && n@ == name@ && m@ == guessed_mime(name@)),
        !asset_found && index_found ==> (reply matches StaticReply::Asset { name: n, mime: m }
            && n@ == index_page() && m@ == guessed_mime(index_page()) && m@ == "text/html"@),
        !asset_found && !index_found ==> reply is NotFound,
{
    if asset_found {
        let mime = guess_mime(name);
        StaticReply::Asset { name: owned(name), mime }
    } else if index_found {
        let index = owned("index.html");
        let mime = guess_mime(index.as_str());
        StaticReply::Asset { name: index, mime }
    } else {
        StaticReply::NotFound
    }
}

/// A request path always names some asset, and the name never starts with a
/// slash: it is the index page or what follows the leading slashes.
pub proof fn law_asset_name(uri_path: Seq<char>)
    ensures
        asset_name_of(uri_path).len() > 0,
        asset_name_of(uri_path)[0] != '/',
        asset_name_of(uri_path) == index_page() || asset_name_of(uri_path).is_suffix_of(uri_path),
{
    lemma_without_leading_slashes(uri_path);
    reveal_strlit("index.html");
}

} // verus!
