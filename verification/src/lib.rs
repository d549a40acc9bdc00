//! A client for a translation service that has no public interface: the
//! requests that a browser would send, the reading of what comes back, and
//! the order of the steps in between. Sending and receiving are left to the
//! caller; everything here is computation on text.

use vstd::prelude::*;

pub mod error;
pub mod escape;
pub mod form;
pub mod google_translate;
pub mod google_translate_m;
pub mod http;
pub mod json;
pub mod text;

verus! {

/// The user agent that is sent where the caller names none.
pub const DEFAULT_USER_AGENT: &'static str =
    "Mozilla/5.0 (Macintosh; Intel Mac OS X 10_15_7) AppleWebKit/537.36 (KHTML, like Gecko) Chrome/120.0.0.0 Safari/537.36";

/// The caller's user agent, or the default one.
pub fn default_user_agent(user_agent: Option<String>) -> (r: String)
    ensures
        r@ == (match user_agent {
            Some(given) => given@,
            None => DEFAULT_USER_AGENT@,
        }),
{
    match user_agent {
        Some(given) => given,
        None => DEFAULT_USER_AGENT.to_owned(),
    }
}

} // verus!
