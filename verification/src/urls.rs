//! Web addresses, as the `url` parser that `reqwest` re-exports reads them.
use vstd::prelude::*;

verus! {

/// What the library reads of a parsed URL: its scheme (lowercased by the
/// parser), and the ASCII serialization of its origin when that origin is a
/// scheme-host-port tuple (`None` for an opaque origin).
pub struct UrlParts {
    pub scheme: String,
    pub origin: Option<String>,
}

pub open spec fn opt_text(o: Option<String>) -> Option<Seq<char>> {
    match o {
        Some(s) => Some(s@),
        None => None,
    }
}

impl View for UrlParts {
    type V = (Seq<char>, Option<Seq<char>>);

    open spec fn view(&self) -> (Seq<char>, Option<Seq<char>>) {
        (self.scheme@, opt_text(self.origin))
    }
}

/// `text` read as an absolute URL by `reqwest::Url::parse`: its scheme and
/// the serialization of its tuple origin; `None` when it is no URL.
pub uninterp spec fn url_parts(text: Seq<char>) -> Option<(Seq<char>, Option<Seq<char>>)>;

/// `reqwest::Url::parse(text)`, then `scheme()` and `origin()` of the result:
/// a tuple origin is handed back as its `ascii_serialization()`, an opaque
/// one as `None`. The contract only names the result: the URL grammar is the
/// `url` crate's.
#[verifier::external_body]
pub(crate) fn parse_url(text: &str) -> (r: Option<UrlParts>)
    ensures
        r is None <==> url_parts(text@) is None,
        r matches Some(p) ==> url_parts(text@) == Some(p@),
{
    match reqwest::Url::parse(text) {
        Ok(url) => {
            let origin = url.origin();
            let serialized = if origin.is_tuple() {
                Some(origin.ascii_serialization())
            } else {
                None
            };
            Some(UrlParts { scheme: url.scheme().to_owned(), origin: serialized })
        },
        Err(_) => None,
    }
}

} // verus!
