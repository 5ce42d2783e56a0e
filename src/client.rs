use vstd::prelude::*;

use crate::error::OllamaError;

verus! {

#[verifier::external_type_specification]
#[verifier::external_body]
pub struct ExUrl(url::Url);

#[verifier::external_type_specification]
#[verifier::external_body]
pub struct ExClient(reqwest::Client);

/// The serialization of a URL.
pub uninterp spec fn url_text(u: url::Url) -> Seq<char>;

/// The URL that a text parses to, if it is a valid absolute URL.
pub uninterp spec fn url_parsed(s: Seq<char>) -> Option<url::Url>;

/// The URL that a relative reference resolves to against a base, if any.
pub uninterp spec fn url_joined(u: url::Url, s: Seq<char>) -> Option<url::Url>;

/// Relies on url::Url::as_str, which hands out the URL's stored
/// serialization.
pub assume_specification<'a>[ url::Url::as_str ](u: &'a url::Url) -> (r: &'a str)
    ensures
        r@ == url_text(*u),
;

/// Relies on url::Url::parse, which parses an absolute URL from the text
/// alone.
pub assume_specification[ url::Url::parse ](input: &str) -> (r: Result<url::Url, url::ParseError>)
    ensures
        r is Ok <==> url_parsed(input@) is Some,
        r matches Ok(u) ==> url_parsed(input@) == Some(u),
;

/// Relies on url::Url::join, which resolves a relative reference against a
/// base from the two alone.
pub assume_specification[ url::Url::join ](u: &url::Url, input: &str) -> (r: Result<
    url::Url,
    url::ParseError,
>)
    ensures
        r is Ok <==> url_joined(*u, input@) is Some,
        r matches Ok(v) ==> url_joined(*u, input@) == Some(v),
;

/// Relies on reqwest::ClientBuilder::build with the default settings, which
/// fails only where the HTTP stack cannot be set up.
#[verifier::external_body]
fn build_client() -> (r: Result<reqwest::Client, reqwest::Error>) {
    reqwest::Client::builder().build()
}

/// Address of a service on this machine at its usual port.
pub const DEFAULT_BASE_URL: &'static str = "http://localhost:11434/";

/// Whether `s` ends in a path separator.
pub open spec fn ends_with_separator(s: Seq<char>) -> bool {
    s.len() > 0 && s.last() == '/'
}

/// Tells whether a base URL ends in a path separator, as every base URL
/// of a service must: endpoints are resolved against it.
pub fn has_trailing_separator(s: &str) -> (r: bool)
    ensures
        r == ends_with_separator(s@),
{
    let n = s.unicode_len();
    if n == 0 {
        false
    } else {
        s.get_char(n - 1) == '/'
    }
}

/// A handle on one generation service: its base URL and the HTTP client
/// that every task shares.
#[derive(Debug)]
pub struct Ollama {
    base_url: url::Url,
    base: String,
    client: reqwest::Client,
}

impl Ollama {
    /// The serialization of the base URL.
    pub closed spec fn base_text(&self) -> Seq<char> {
        self.base@
    }

    /// The base URL the handle was made with.
    pub closed spec fn kept_url(&self) -> url::Url {
        self.base_url
    }

    /// The base text is the serialization of the kept URL.
    pub closed spec fn wf(&self) -> bool {
        self.base@ == url_text(self.base_url)
    }

    /// A handle on the service at `base_url`, which it keeps unchanged. A
    /// base URL that does not end in a path separator is refused here,
    /// before any request is made.
    pub fn new(base_url: url::Url) -> (r: Result<Ollama, OllamaError>)
        ensures
            (r matches Err(e) && e is BaseUrlWithoutSeparator) <==> !ends_with_separator(
                url_text(base_url),
            ),
            r matches Ok(o) ==> o.wf() && o.kept_url() == base_url && o.base_text() == url_text(
                base_url,
            ),
            r matches Err(e) ==> e is BaseUrlWithoutSeparator || e is Net,
    {
        let base = String::from_str(base_url.as_str());
        if !has_trailing_separator(base.as_str()) {
            return Err(OllamaError::BaseUrlWithoutSeparator);
        }
        match build_client() {
            Ok(client) => Ok(Ollama { base_url, base, client }),
            Err(e) => Err(OllamaError::Net(e)),
        }
    }

    /// A handle on the service whose base URL is written `base`.
    pub fn parse(base: &str) -> (r: Result<Ollama, OllamaError>)
        ensures
            (r matches Err(e) && e is Url) <==> url_parsed(base@) is None,
            url_parsed(base@) matches Some(u) ==> {
                &&& (r matches Err(e) && e is BaseUrlWithoutSeparator) <==> !ends_with_separator(
                    url_text(u),
                )
                &&& r matches Ok(o) ==> o.wf() && o.kept_url() == u && o.base_text() == url_text(
                    u,
                )
            },
            r matches Err(e) ==> e is Url || e is BaseUrlWithoutSeparator || e is Net,
    {
        match url::Url::parse(base) {
            Ok(u) => Ollama::new(u),
            Err(e) => Err(OllamaError::Url(e)),
        }
    }

    /// A handle on the service at `DEFAULT_BASE_URL`.
    pub fn local() -> (r: Result<Ollama, OllamaError>)
        ensures
            (r matches Err(e) && e is Url) <==> url_parsed(DEFAULT_BASE_URL@) is None,
            url_parsed(DEFAULT_BASE_URL@) matches Some(u) ==> {
                &&& (r matches Err(e) && e is BaseUrlWithoutSeparator) <==> !ends_with_separator(
                    url_text(u),
                )
                &&& r matches Ok(o) ==> o.wf() && o.kept_url() == u && o.base_text() == url_text(
                    u,
                )
            },
            r matches Err(e) ==> e is Url || e is BaseUrlWithoutSeparator || e is Net,
    {
        Ollama::parse(DEFAULT_BASE_URL)
    }

    /// The base URL as text.
    pub fn base_url(&self) -> (r: &str)
        ensures
            r@ == self.base_text(),
    {
        self.base.as_str()
    }

    /// The endpoint that generate requests are posted to: the base URL
    /// joined with `api/generate`.
    pub fn generate_url(&self) -> (r: Result<url::Url, OllamaError>)
        ensures
            r is Ok <==> url_joined(self.kept_url(), "api/generate"@) is Some,
            r matches Ok(v) ==> url_joined(self.kept_url(), "api/generate"@) == Some(v),
            r matches Err(e) ==> e is Url,
    {
        match self.base_url.join("api/generate") {
            Ok(u) => Ok(u),
            Err(e) => Err(OllamaError::Url(e)),
        }
    }

    /// The HTTP client shared by all tasks.
    pub fn client(&self) -> &reqwest::Client {
        &self.client
    }
}

} // verus!
