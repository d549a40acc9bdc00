//! The main client: it asks for the service's start page, takes the session
//! token out of it, and sends the text to the service's batch endpoint.

use vstd::prelude::*;
use vstd::string::StringExecFns;
use crate::form::pairs_view;
use crate::text::{decimal, push_decimal};

pub mod codec;
pub mod session;

pub use self::codec::{
    acquire_fsid_from_html, check_response_ok, create_payload_string, unwrap_response,
};
pub use self::session::{translate, translate_with, PageFetch, RpcCall};

verus! {

/// Where the service lives.
pub const BACKEND: &'static str = "https://translate.google.com";

/// The path of the batch endpoint below `BACKEND`.
pub const BATCH_PATH: &'static str = "/_/TranslateWebserverUi/data/batchexecute";

/// The name under which the service knows the translate call.
pub const TRANSLATE_RPC_ID: &'static str = "MkEWBc";

/// The build of the web client that the requests claim to come from.
pub const UI_VERSION: &'static str = "boq_translate-webserver_20231212.05_p0";

/// The largest request number that is drawn.
pub const MAX_REQ_ID: u32 = 100_000;

/// The `Accept-Language` values to draw from, counted from 0. The first is
/// "send no such header"; a request is made with one of the first three, and
/// never with the fourth.
pub open spec fn accept_language_candidate(index: int) -> Option<Seq<char>> {
    if index == 1 {
        Some("en-US,en;q=0.9"@)
    } else if index == 2 {
        Some("en-US"@)
    } else if index == 3 {
        Some("en"@)
    } else {
        None
    }
}

/// What one call sends along: fixed names of the service, and two values
/// drawn anew for every call.
pub struct EndpointConfig {
    backend: String,
    endpoint: String,
    accept_language: Option<String>,
    req_id: u32,
    translate_rpc_id: String,
    version: String,
}

/// The mathematical value of an `EndpointConfig`.
pub ghost struct EndpointConfigView {
    pub backend: Seq<char>,
    pub endpoint: Seq<char>,
    pub accept_language: Option<Seq<char>>,
    pub req_id: nat,
    pub translate_rpc_id: Seq<char>,
    pub version: Seq<char>,
}

impl EndpointConfigView {
    /// The configuration with the `choice`-th `Accept-Language` candidate and
    /// the request number `req_id`.
    pub open spec fn drawn(choice: int, req_id: nat) -> EndpointConfigView {
        EndpointConfigView {
            backend: BACKEND@,
            endpoint: BACKEND@ + BATCH_PATH@,
            accept_language: accept_language_candidate(choice),
            req_id,
            translate_rpc_id: TRANSLATE_RPC_ID@,
            version: UI_VERSION@,
        }
    }

    /// The configuration is one that a call is made with: the fixed names are
    /// the service's, the request number lies between 1 and `MAX_REQ_ID`, and
    /// the language is one of the first three candidates.
    pub open spec fn wf(self) -> bool {
        &&& 1 <= self.req_id <= MAX_REQ_ID
        &&& exists|choice: int| 0 <= choice < 3 && self == #[trigger] Self::drawn(choice, self.req_id)
    }

    /// The query of the batch request: its parameters in their fixed order.
    pub open spec fn query(self, fsid: Seq<char>) -> Seq<char> {
        "rpcids="@ + self.translate_rpc_id + "&f.sid="@ + fsid + "&bl="@ + self.version
            + "&hl=en-US&soc-app=1&soc-platform=1&soc-device=1&_reqid="@ + decimal(self.req_id)
            + "&rt=c"@
    }

    /// The address of the batch request.
    pub open spec fn url(self, fsid: Seq<char>) -> Seq<char> {
        self.endpoint + "?"@ + self.query(fsid)
    }

    /// The headers of the batch request, in the order in which they are set.
    /// `Accept-Language` is there only if a value was drawn for it.
    pub open spec fn headers(self) -> Seq<(Seq<char>, Seq<char>)> {
        seq![
            ("Referer"@, self.backend + "/"@),
            ("X-Same-Domain"@, "1"@),
            ("DNT"@, "1"@),
            ("Content-Type"@, "application/x-www-form-urlencoded;charset=UTF-8"@),
            ("Accept"@, "*/*"@),
            ("Origin"@, self.backend),
        ] + (match self.accept_language {
            Some(value) => seq![("Accept-Language"@, value)],
            None => Seq::empty(),
        })
    }
}

impl View for EndpointConfig {
    type V = EndpointConfigView;

    closed spec fn view(&self) -> EndpointConfigView {
        EndpointConfigView {
            backend: self.backend@,
            endpoint: self.endpoint@,
            accept_language: match self.accept_language {
                Some(value) => Some(value@),
                None => None,
            },
            req_id: self.req_id as nat,
            translate_rpc_id: self.translate_rpc_id@,
            version: self.version@,
        }
    }
}

/// Draws a number with `rand::Rng::gen_range` from the generator that
/// `rand::thread_rng` hands out. Which number comes is left open: it lies in
/// the range asked for, bounds included, and that is all the contract says.
/// An empty range is kept out, since `gen_range` refuses it.
#[verifier::external_body]
fn random_between(low: u32, high: u32) -> (r: u32)
    requires
        low <= high,
    ensures
        low <= r <= high,
{
    rand::Rng::gen_range(&mut rand::thread_rng(), low..=high)
}

/// The `index`-th `Accept-Language` candidate.
pub fn accept_language(index: u32) -> (r: Option<String>)
    ensures
        match r {
            Some(value) => accept_language_candidate(index as int) == Some(value@),
            None => accept_language_candidate(index as int) is None,
        },
{
    match index {
        1 => Some("en-US,en;q=0.9".to_owned()),
        2 => Some("en-US".to_owned()),
        3 => Some("en".to_owned()),
        _ => None,
    }
}

impl EndpointConfig {
    /// The configuration for the two values that were drawn.
    pub fn from_samples(choice: u32, req_id: u32) -> (r: Self)
        requires
            choice < 3,
            1 <= req_id <= MAX_REQ_ID,
        ensures
            r@ == EndpointConfigView::drawn(choice as int, req_id as nat),
            r@.wf(),
    {
        let endpoint = BACKEND.to_owned().concat(BATCH_PATH);
        EndpointConfig {
            backend: BACKEND.to_owned(),
            endpoint,
            accept_language: accept_language(choice),
            req_id,
            translate_rpc_id: TRANSLATE_RPC_ID.to_owned(),
            version: UI_VERSION.to_owned(),
        }
    }

    /// A configuration with both values drawn at random: the language among
    /// the first three candidates, the request number from 1 to `MAX_REQ_ID`.
    pub fn new() -> (r: Self)
        ensures
            r@.wf(),
    {
        let choice = random_between(0, 2);
        let req_id = random_between(1, MAX_REQ_ID);
        Self::from_samples(choice, req_id)
    }

    /// The address of the service.
    pub fn backend(&self) -> (r: &str)
        ensures
            r@ == self@.backend,
    {
        self.backend.as_str()
    }

    /// The name of the translate call.
    pub fn translate_rpc_id(&self) -> (r: &str)
        ensures
            r@ == self@.translate_rpc_id,
    {
        self.translate_rpc_id.as_str()
    }

    /// The request number.
    pub fn req_id(&self) -> (r: u32)
        ensures
            r == self@.req_id,
    {
        self.req_id
    }

    /// The `Accept-Language` value, if one was drawn.
    pub fn accept_language(&self) -> (r: Option<&str>)
        ensures
            match r {
                Some(value) => self@.accept_language == Some(value@),
                None => self@.accept_language is None,
            },
    {
        match &self.accept_language {
            Some(value) => Some(value.as_str()),
            None => None,
        }
    }

    /// The query of the batch request for the session `fsid`.
    pub fn build_query_str(&self, fsid: &str) -> (r: String)
        ensures
            r@ == self@.query(fsid@),
    {
        let mut query = String::new();
        query.append("rpcids=");
        query.append(self.translate_rpc_id.as_str());
        query.append("&f.sid=");
        query.append(fsid);
        query.append("&bl=");
        query.append(self.version.as_str());
        query.append("&hl=en-US&soc-app=1&soc-platform=1&soc-device=1&_reqid=");
        push_decimal(&mut query, self.req_id);
        query.append("&rt=c");
        assert(query@ =~= self@.query(fsid@));
        query
    }

    /// The address of the batch request for the session `fsid`.
    pub fn build_endpoint(&self, fsid: &str) -> (r: String)
        ensures
            r@ == self@.url(fsid@),
    {
        let mut url = String::new();
        url.append(self.endpoint.as_str());
        url.append("?");
        url.append(self.build_query_str(fsid).as_str());
        assert(url@ =~= self@.url(fsid@));
        url
    }

    /// The headers of the batch request.
    pub fn build_headers(&self) -> (r: Vec<(String, String)>)
        ensures
            pairs_view(r@) == self@.headers(),
    {
        let mut headers: Vec<(String, String)> = Vec::new();
        headers.push(("Referer".to_owned(), self.backend.clone().concat("/")));
        headers.push(("X-Same-Domain".to_owned(), "1".to_owned()));
        headers.push(("DNT".to_owned(), "1".to_owned()));
        headers.push(
            ("Content-Type".to_owned(), "application/x-www-form-urlencoded;charset=UTF-8".to_owned()),
        );
        headers.push(("Accept".to_owned(), "*/*".to_owned()));
        headers.push(("Origin".to_owned(), self.backend.clone()));
        if let Some(value) = &self.accept_language {
            headers.push(("Accept-Language".to_owned(), value.clone()));
        }
        assert(pairs_view(headers@) =~= self@.headers());
        headers
    }
}

} // verus!
