//! One translation, step by step. Each step takes what the last request
//! brought and says what to do next; the value that waits for an answer is
//! used up by it, so no token and no configuration serves twice.

use vstd::prelude::*;
use crate::error::TranslateError;
use crate::google_translate::codec::{
    acquire_fsid_from_html,
    create_payload_string,
    decoded,
    payload,
    token_of,
    unwrap_response,
};
use crate::google_translate::{EndpointConfig, EndpointConfigView};
use crate::http::{Method, Reply, Request, RequestView};

verus! {

/// The request for the start page.
pub open spec fn page_request(config: EndpointConfigView) -> RequestView {
    RequestView {
        method: Method::Get,
        url: config.backend,
        headers: seq![("Upgrade-Insecure-Requests"@, "1"@)],
        body: None,
    }
}

/// The batch request that carries `text` under the session `token`.
pub open spec fn rpc_request(
    config: EndpointConfigView,
    token: Seq<char>,
    text: Seq<char>,
    source: Seq<char>,
    target: Seq<char>,
) -> RequestView {
    RequestView {
        method: Method::Post,
        url: config.url(token),
        headers: config.headers(),
        body: Some(payload(config.translate_rpc_id, text, source, target)),
    }
}

/// A translation that waits for the start page.
pub struct PageFetch {
    config: EndpointConfig,
    text: String,
    source: String,
    target: String,
}

/// The mathematical value of a `PageFetch`.
pub ghost struct PageFetchView {
    pub config: EndpointConfigView,
    pub text: Seq<char>,
    pub source: Seq<char>,
    pub target: Seq<char>,
}

impl View for PageFetch {
    type V = PageFetchView;

    closed spec fn view(&self) -> PageFetchView {
        PageFetchView {
            config: self.config@,
            text: self.text@,
            source: self.source@,
            target: self.target@,
        }
    }
}

/// A translation that waits for the answer to its batch request.
pub struct RpcCall {
    text: String,
}

impl View for RpcCall {
    type V = Seq<char>;

    /// The text that was sent.
    closed spec fn view(&self) -> Seq<char> {
        self.text@
    }
}

/// Starts a translation with the configuration `config`: the first thing to
/// send is the request for the start page.
pub fn translate_with(
    config: EndpointConfig,
    untranslated_text: String,
    source_lang: &str,
    destination_lang: &str,
) -> (r: (PageFetch, Request))
    ensures
        r.0@ == (PageFetchView {
            config: config@,
            text: untranslated_text@,
            source: source_lang@,
            target: destination_lang@,
        }),
        r.1@ == page_request(config@),
{
    let mut headers: Vec<(String, String)> = Vec::new();
    headers.push(("Upgrade-Insecure-Requests".to_owned(), "1".to_owned()));
    let request = Request {
        method: Method::Get,
        url: config.backend().to_owned(),
        headers,
        body: None,
    };
    assert(request@.headers =~= page_request(config@).headers);
    let state = PageFetch {
        config,
        text: untranslated_text,
        source: source_lang.to_owned(),
        target: destination_lang.to_owned(),
    };
    (state, request)
}

/// Starts a translation with a configuration drawn for this call alone.
pub fn translate(untranslated_text: String, source_lang: &str, destination_lang: &str) -> (r: (
    PageFetch,
    Request,
))
    ensures
        r.0@.config.wf(),
        r.0@.text == untranslated_text@,
        r.0@.source == source_lang@,
        r.0@.target == destination_lang@,
        r.1@ == page_request(r.0@.config),
{
    translate_with(EndpointConfig::new(), untranslated_text, source_lang, destination_lang)
}

impl PageFetch {
    /// Goes on with what the request for the start page brought: with the
    /// page's token the batch request is made up, and the translation waits
    /// for its answer.
    pub fn page_received(self, reply: Reply) -> (r: Result<(RpcCall, Request), TranslateError>)
        ensures
            match reply {
                Reply::Failed => r == Err::<(RpcCall, Request), TranslateError>(
                    TranslateError::SessionFetchFailed,
                ),
                Reply::Body(html) => match token_of(html@) {
                    None => r == Err::<(RpcCall, Request), TranslateError>(
                        TranslateError::TokenNotFound,
                    ),
                    Some(token) => {
                        &&& r is Ok
                        &&& r->Ok_0.0@ == self@.text
                        &&& r->Ok_0.1@ == rpc_request(
                            self@.config,
                            token,
                            self@.text,
                            self@.source,
                            self@.target,
                        )
                    },
                },
            },
    {
        let html = match reply {
            Reply::Failed => {
                return Err(TranslateError::SessionFetchFailed);
            },
            Reply::Body(html) => html,
        };
        let token = match acquire_fsid_from_html(&html) {
            Err(e) => {
                return Err(e);
            },
            Ok(token) => token,
        };
        let body = create_payload_string(
            self.config.translate_rpc_id(),
            &self.text,
            self.source.as_str(),
            self.target.as_str(),
        );
        let request = Request {
            method: Method::Post,
            url: self.config.build_endpoint(token),
            headers: self.config.build_headers(),
            body: Some(body),
        };
        Ok((RpcCall { text: self.text }, request))
    }
}

impl RpcCall {
    /// Ends the translation with what the batch request brought.
    pub fn reply_received(self, reply: Reply) -> (r: Result<String, TranslateError>)
        ensures
            match reply {
                Reply::Failed => r == Err::<String, TranslateError>(
                    TranslateError::TransportFailure,
                ),
                Reply::Body(body) => match r {
                    Ok(translation) => decoded(body@, self@) == Ok::<Seq<char>, TranslateError>(
                        translation@,
                    ),
                    Err(e) => decoded(body@, self@) == Err::<Seq<char>, TranslateError>(e),
                },
            },
    {
        match reply {
            Reply::Failed => Err(TranslateError::TransportFailure),
            Reply::Body(body) => unwrap_response(&self.text, &body),
        }
    }
}

} // verus!
