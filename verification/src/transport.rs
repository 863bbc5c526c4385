//! What goes over the wire and what comes back: requests as the providers
//! expect them, responses as a transport hands them in, and the first look
//! at a response's status.

use vstd::prelude::*;
use vstd::string::StringExecFns;
use crate::error::Failure;
use crate::error::TranslationError;

verus! {

/// How a request is sent.
#[derive(Debug, Copy, Clone, PartialEq, Eq, Structural)]
pub enum Method {
    /// The parameters travel in the query string.
    Get,
    /// The parameters travel in the body, form-encoded.
    Post,
}

/// One request to a provider, complete but for the sending.
#[derive(Debug, Clone, PartialEq, Eq)]
pub struct Request {
    pub method: Method,
    pub url: String,
    /// Query parameters of a `Get`, form fields of a `Post`, in order.
    pub params: Vec<(String, String)>,
    /// Headers to set, in order.
    pub headers: Vec<(String, String)>,
    /// Proxy endpoints for the client that sends, in order.
    pub proxies: Vec<String>,
}

/// What a [`Request`] holds, with its texts as sequences.
pub struct Wire {
    pub method: Method,
    pub url: Seq<char>,
    pub params: Seq<(Seq<char>, Seq<char>)>,
    pub headers: Seq<(Seq<char>, Seq<char>)>,
    pub proxies: Seq<Seq<char>>,
}

impl View for Request {
    type V = Wire;

    open spec fn view(&self) -> Wire {
        Wire {
            method: self.method,
            url: self.url@,
            params: self.params.deep_view(),
            headers: self.headers.deep_view(),
            proxies: self.proxies.deep_view(),
        }
    }
}

/// A provider's response: the HTTP status and the body as text.
#[derive(Debug, Clone, PartialEq, Eq)]
pub struct Reply {
    pub status: u16,
    pub body: String,
}

/// What the status of a response means before anyone reads the body:
/// 429 is a rate limit whatever the body says, any other status but 200 a
/// failed request, and 200 nothing yet.
pub open spec fn status_failure(status: u16) -> Option<Failure> {
    if status == 429 {
        Some(Failure::TooManyRequests)
    } else if status != 200 {
        Some(Failure::Request)
    } else {
        None
    }
}

/// Classifies a response by its status and lets a 200 through untouched.
pub fn response_status(response: Reply) -> (r: Result<Reply, TranslationError>)
    ensures
        match r {
            Ok(passed) => status_failure(response.status) is None && passed == response,
            Err(e) => status_failure(response.status) == Some(e@),
        },
{
    if response.status == 429 {
        return Err(TranslationError::TooManyRequests);
    }
    if response.status != 200 {
        return Err(TranslationError::Request);
    }
    Ok(response)
}

/// Appends the pair (`name`, `value`) to a list of parameters or headers.
pub(crate) fn push_pair(list: &mut Vec<(String, String)>, name: &str, value: &str)
    ensures
        final(list).deep_view() == old(list).deep_view().push((name@, value@)),
{
    list.push((String::from_str(name), String::from_str(value)));
    assert(final(list).deep_view() =~= old(list).deep_view().push((name@, value@)));
}

/// A copy of a list of strings.
pub(crate) fn copy_strings(list: &Vec<String>) -> (r: Vec<String>)
    ensures
        r.deep_view() == list.deep_view(),
{
    let mut out: Vec<String> = Vec::new();
    let mut i: usize = 0;
    while i < list.len()
        invariant
            i <= list@.len(),
            out@.len() == i,
            forall|j: int| 0 <= j < i ==> out@[j]@ == list@[j]@,
        decreases list@.len() - i,
    {
        out.push(list[i].clone());
        i += 1;
    }
    assert(out.deep_view() =~= list.deep_view());
    out
}

} // verus!
