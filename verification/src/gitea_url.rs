//! The Gitea forge's base URL, held as the serialization of a parsed absolute
//! URL. Syntax checking is delegated to the `url` crate; this module only
//! records what that check established.

use vstd::prelude::*;

verus! {

/// What `url::Url::parse` makes of a piece of text: `Some` with the parsed
/// URL's serialization when the text is a valid absolute URL, `None`
/// otherwise. The outcome is a function of the text alone.
pub uninterp spec fn url_parse(s: Seq<char>) -> Option<Seq<char>>;

/// Relies on url::Url::parse, which accepts exactly the valid absolute URLs,
/// and on url's `String` conversion, which returns the parsed URL's
/// serialization. Both depend on the input text alone.
#[verifier::external_body]
fn parse_url_text(s: &str) -> (r: Option<String>)
    ensures
        r is Some <==> url_parse(s@) is Some,
        r matches Some(t) ==> url_parse(s@) matches Some(n) && t@ == n,
{
    match url::Url::parse(s) {
        Ok(parsed) => Some(String::from(parsed)),
        Err(_) => None,
    }
}

/// A forge base URL. Its text is the serialization of a parsed URL: either
/// this module parsed the text itself, or the caller supplied a value its own
/// command-line layer had already parsed.
pub struct GiteaUrl {
    text: String,
}

impl View for GiteaUrl {
    type V = Seq<char>;

    closed spec fn view(&self) -> Seq<char> {
        self.text@
    }
}

impl GiteaUrl {
    /// Whether this value is the serialization of some valid absolute URL.
    pub open spec fn valid(self) -> bool {
        exists|s: Seq<char>| url_parse(s) == Some(self@)
    }

    /// Parses `text` as an absolute URL; the result holds the parsed URL's
    /// serialization.
    pub fn parse(text: &str) -> (r: Option<GiteaUrl>)
        ensures
            r is Some <==> url_parse(text@) is Some,
            r matches Some(u) ==> url_parse(text@) matches Some(n) && u@ == n && u.valid(),
    {
        match parse_url_text(text) {
            Some(serialization) => {
                let u = GiteaUrl { text: serialization };
                proof {
                    assert(url_parse(text@) == Some(u@));
                }
                Some(u)
            },
            None => None,
        }
    }

    /// Wraps text the caller has already parsed as a URL; it is accepted
    /// verbatim, as explicitly supplied command-line values are.
    pub fn from_parsed(text: String) -> (r: GiteaUrl)
        ensures
            r@ == text@,
    {
        GiteaUrl { text }
    }

    /// The URL's serialization.
    pub fn as_str(&self) -> (r: &str)
        ensures
            r@ == self@,
    {
        self.text.as_str()
    }
}

} // verus!
