//! The window title that shows the page's title.
use vstd::prelude::*;
use vstd::string::StringExecFns;
use url::Url;
use crate::window::WindowState;

verus! {

/// The address of a web page, as the `url` crate parses and holds it.
#[verifier::external_type_specification]
#[verifier::external_body]
pub struct ExUrl(Url);

/// The text of the window title for a page title, or for the fallback
/// text when the page has no non-empty title: that text followed by " - Servo".
pub open spec fn spec_page_title(title: Option<String>, fallback: Seq<char>) -> Seq<char> {
    let shown: Seq<char> = match title {
        Some(t) => if t@.len() > 0 { t@ } else { fallback },
        None => fallback,
    };
    shown + " - Servo"@
}

/// The text of a URL: its serialization, which `url::Url` stores when it is
/// parsed and writes out unchanged through its `Display` implementation.
pub uninterp spec fn url_text(url: Url) -> Seq<char>;

/// The serialization of `url`, through `url::Url::to_string`. The contract
/// claims only that the text is the URL's own (`url_text`), a function of the
/// URL alone: `Display` writes the stored serialization field.
#[verifier::external_body]
fn url_serialization(url: &Url) -> (r: String)
    ensures
        r@ == url_text(*url),
{
    url.to_string()
}

/// The text shown in place of a missing page title: the text of the page's
/// address if known, "Untitled" otherwise.
pub open spec fn spec_fallback_title(url: Option<Url>) -> Seq<char> {
    match url {
        Some(u) => url_text(u),
        None => "Untitled"@,
    }
}

/// The window title for a page title, given the text to show when the page
/// has no non-empty title.
pub fn page_title(title: Option<String>, fallback: String) -> (r: String)
    ensures
        r@ == spec_page_title(title, fallback@),
{
    let shown = match title {
        Some(t) => if !t.as_str().is_empty() { t } else { fallback },
        None => fallback,
    };
    shown.concat(" - Servo")
}

impl WindowState {
    /// The text shown in place of a missing page title: the address of the
    /// page if known, "Untitled" otherwise.
    pub fn fallback_title(&self) -> (r: String)
        ensures
            r@ == spec_fallback_title(self.current_url),
    {
        match &self.current_url {
            Some(url) => url_serialization(url),
            None => String::from_str("Untitled"),
        }
    }

    /// The window title for the page title `title`.
    pub fn page_title(&self, title: Option<String>) -> (r: String)
        ensures
            r@ == spec_page_title(title, spec_fallback_title(self.current_url)),
    {
        let fallback = self.fallback_title();
        let r = page_title(title, fallback);
        assert(r@ == spec_page_title(title, fallback@));
        r
    }
}

} // verus!
