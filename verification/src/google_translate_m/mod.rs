//! The lighter client: one request to the service's page for small screens,
//! and the translation cut out of the page that comes back.

use vstd::prelude::*;
use vstd::string::StringExecFns;
use crate::default_user_agent;
use crate::error::TranslateError;
use crate::form::{form_urlencoded, pairs_view, urlencode};
use crate::http::{Method, Reply, Request, RequestView};
use crate::text::{between, cut_between};
use crate::DEFAULT_USER_AGENT;

verus! {

/// Where the page for small screens lives.
pub const MOBILE_BACKEND: &'static str = "https://translate.google.com/m";

/// What stands in the page right before the translation.
pub const RESULT_OPEN: &'static str = "<div class=\"result-container\">";

/// What stands in the page right after the translation.
pub const RESULT_CLOSE: &'static str = "</div>";

/// Where the requests of this client go.
pub struct EndpointConfig {
    backend: String,
}

impl View for EndpointConfig {
    type V = Seq<char>;

    /// The address of the page.
    closed spec fn view(&self) -> Seq<char> {
        self.backend@
    }
}

/// The address that asks for the translation of `text`: the page's address
/// and, as its query, the two languages and the text, in this order.
pub open spec fn endpoint(
    backend: Seq<char>,
    text: Seq<char>,
    source: Seq<char>,
    target: Seq<char>,
) -> Seq<char> {
    backend + "?"@ + form_urlencoded(seq![("sl"@, source), ("tl"@, target), ("q"@, text)])
}

impl EndpointConfig {
    /// The configuration for the service's own address.
    pub fn new() -> (r: Self)
        ensures
            r@ == MOBILE_BACKEND@,
    {
        EndpointConfig { backend: MOBILE_BACKEND.to_owned() }
    }

    /// The address that asks for the translation of `untranslated_text`.
    pub fn build_endpoint(
        &self,
        untranslated_text: &str,
        source_lang: &str,
        destination_lang: &str,
    ) -> (r: String)
        ensures
            r@ == endpoint(self@, untranslated_text@, source_lang@, destination_lang@),
    {
        let mut query: Vec<(String, String)> = Vec::new();
        query.push(("sl".to_owned(), source_lang.to_owned()));
        query.push(("tl".to_owned(), destination_lang.to_owned()));
        query.push(("q".to_owned(), untranslated_text.to_owned()));
        assert(pairs_view(query@) =~= seq![
            ("sl"@, source_lang@),
            ("tl"@, destination_lang@),
            ("q"@, untranslated_text@),
        ]);
        let mut url = String::new();
        url.append(self.backend.as_str());
        url.append("?");
        url.append(urlencode(&query).as_str());
        assert(url@ =~= endpoint(self@, untranslated_text@, source_lang@, destination_lang@));
        url
    }
}

/// The one request of a translation.
pub open spec fn page_request(
    text: Seq<char>,
    source: Seq<char>,
    target: Seq<char>,
    user_agent: Seq<char>,
) -> RequestView {
    RequestView {
        method: Method::Get,
        url: endpoint(MOBILE_BACKEND@, text, source, target),
        headers: seq![("User-Agent"@, user_agent)],
        body: None,
    }
}

/// Makes up the request that asks for the translation of `untranslated_text`.
/// Where no user agent is given, the default one is sent.
pub fn translate(
    untranslated_text: String,
    source_lang: &str,
    destination_lang: &str,
    user_agent: Option<String>,
) -> (r: Request)
    ensures
        r@ == page_request(
            untranslated_text@,
            source_lang@,
            destination_lang@,
            match user_agent {
                Some(given) => given@,
                None => DEFAULT_USER_AGENT@,
            },
        ),
{
    let url = EndpointConfig::new().build_endpoint(
        untranslated_text.as_str(),
        source_lang,
        destination_lang,
    );
    let mut headers: Vec<(String, String)> = Vec::new();
    headers.push(("User-Agent".to_owned(), default_user_agent(user_agent)));
    let request = Request { method: Method::Get, url, headers, body: None };
    assert(request@.headers =~= seq![
        (
            "User-Agent"@,
            match user_agent {
                Some(given) => given@,
                None => DEFAULT_USER_AGENT@,
            },
        ),
    ]);
    request
}

/// The translation as the page holds it, entities and all: what stands
/// between the opening marker and the next closing one.
pub open spec fn value_of(html: Seq<char>) -> Option<Seq<char>> {
    between(html, RESULT_OPEN@, RESULT_CLOSE@)
}

/// Cuts the translation out of the page.
pub fn get_value(html: &str) -> (r: Option<&str>)
    ensures
        match r {
            Some(value) => value_of(html@) == Some(value@),
            None => value_of(html@) is None,
        },
{
    cut_between(html, RESULT_OPEN, RESULT_CLOSE)
}

/// What `html_escape::decode_html_entities` makes of `text`.
pub uninterp spec fn entities_decoded(text: Seq<char>) -> Seq<char>;

/// Calls `html_escape::decode_html_entities`, which puts the character in
/// place of each named or numbered entity that ends in `;` and copies the
/// rest. The contract names what comes back, and states one thing of it:
/// the decoder looks for `&` first, and text without one comes back as it is.
#[verifier::external_body]
fn decode_entities(text: &str) -> (r: String)
    ensures
        r@ == entities_decoded(text@),
        !text@.contains('&') ==> r@ == text@,
{
    html_escape::decode_html_entities(text).into_owned()
}

/// What a page says: the translation between the markers, with its entities
/// decoded.
pub open spec fn translation_of(html: Seq<char>) -> Result<Seq<char>, TranslateError> {
    match value_of(html) {
        Some(value) => Ok(entities_decoded(value)),
        None => Err(TranslateError::MarkerNotFound),
    }
}

/// Reads the translation out of the page.
pub fn read_translation(html: &str) -> (r: Result<String, TranslateError>)
    ensures
        match r {
            Ok(translation) => translation_of(html@) == Ok::<Seq<char>, TranslateError>(
                translation@,
            ),
            Err(e) => translation_of(html@) == Err::<Seq<char>, TranslateError>(e),
        },
        match value_of(html@) {
            Some(value) => !value.contains('&') ==> r is Ok && r->Ok_0@ == value,
            None => r is Err,
        },
{
    match get_value(html) {
        Some(value) => Ok(decode_entities(value)),
        None => Err(TranslateError::MarkerNotFound),
    }
}

/// Ends the translation with what the request brought.
pub fn reply_received(reply: Reply) -> (r: Result<String, TranslateError>)
    ensures
        match reply {
            Reply::Failed => r == Err::<String, TranslateError>(TranslateError::TransportFailure),
            Reply::Body(html) => match r {
                Ok(translation) => translation_of(html@) == Ok::<Seq<char>, TranslateError>(
                    translation@,
                ),
                Err(e) => translation_of(html@) == Err::<Seq<char>, TranslateError>(e),
            },
        },
{
    match reply {
        Reply::Failed => Err(TranslateError::TransportFailure),
        Reply::Body(html) => read_translation(html.as_str()),
    }
}

} // verus!
