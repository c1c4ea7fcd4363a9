//! The transport dispatcher and the typed request executor.
//!
//! `TransportClient` is the one interface to the network: a blocking,
//! single-attempt exchange of a request for a response.  `GithubClient`
//! composes the payload codec with that interface behind the two entry
//! points of `SimpleClient`, injecting the content-negotiation, client
//! identity and credential headers on every call, and folding every failure
//! into the unified error type.

use vstd::prelude::*;

use crate::codec::{decode_body, encode_body, spec_decode_body, JsonDecode, JsonEncode};
use crate::errors::GitErr;
use crate::types::{Body, Url};

verus! {

broadcast use vstd::seq::group_seq_axioms, vstd::std_specs::vec::group_vec_axioms;

/// The fixed set of HTTP verbs the client issues.
#[derive(Clone, Copy, PartialEq, Eq, Structural, Debug)]
pub enum Method {
    Get,
    Post,
    Put,
    Patch,
    Delete,
}

/// One outgoing request, fully resolved: verb, endpoint, headers and body.
pub struct HttpRequest {
    pub method: Method,
    pub url: Url,
    pub headers: Vec<(String, String)>,
    pub body: Body,
}

/// One raw response: status code and buffered body text.
pub struct HttpResponse {
    pub status: u16,
    pub body: Body,
}

/// The network boundary: performs exactly one blocking request and returns
/// the raw response, or the transport's own failure message.  Nothing is
/// promised of the outcome — a transport may fail or answer anything — so
/// every caller in the library is verified against all outcomes.
pub trait TransportClient {
    fn send(&self, req: &HttpRequest) -> Result<HttpResponse, String>;
}

/// The headers attached to every call: content negotiation for the versioned
/// media type, the fixed client identifier, the connection-close directive,
/// and the credential exactly when one was configured.
pub open spec fn spec_common_headers(token: Option<Seq<char>>) -> Seq<(Seq<char>, Seq<char>)> {
    let base = seq![
        ("Accept"@, "application/vnd.github.v3+json"@),
        ("User-Agent"@, "CatalystBot"@),
        ("Connection"@, "close"@),
    ];
    match token {
        Some(t) => base + seq![("Authorization"@, t)],
        None => base,
    }
}

/// Whether a header list carries a header of the given name.
pub open spec fn spec_has_header(hs: Seq<(Seq<char>, Seq<char>)>, name: Seq<char>) -> bool {
    exists|i: int| 0 <= i < hs.len() && #[trigger] hs[i].0 == name
}

/// The header invariant: every call carries the content-negotiation and
/// client-identifier headers, and carries the credential header exactly when
/// a credential was configured — with the configured value.
pub proof fn lemma_header_invariant(token: Option<Seq<char>>)
    ensures
        spec_has_header(spec_common_headers(token), "Accept"@),
        spec_has_header(spec_common_headers(token), "User-Agent"@),
        spec_has_header(spec_common_headers(token), "Connection"@),
        spec_has_header(spec_common_headers(token), "Authorization"@) <==> token is Some,
        token matches Some(t) ==> spec_common_headers(token).last() == ("Authorization"@, t),
{
    let hs = spec_common_headers(token);
    reveal_strlit("Accept");
    reveal_strlit("User-Agent");
    reveal_strlit("Connection");
    reveal_strlit("Authorization");
    assert(hs[0].0 == "Accept"@);
    assert(hs[1].0 == "User-Agent"@);
    assert(hs[2].0 == "Connection"@);
    assert(("Accept"@).len() == 6);
    assert(("User-Agent"@).len() == 10);
    assert(("Connection"@).len() == 10);
    assert(("Authorization"@).len() == 13);
    match token {
        Some(t) => {
            assert(hs[3].0 == "Authorization"@);
            assert(spec_has_header(hs, "Authorization"@));
            assert(hs[3] == ("Authorization"@, t));
        },
        None => {
            assert(hs.len() == 3);
            assert forall|i: int| 0 <= i < hs.len() implies hs[i].0 != "Authorization"@ by {
                assert(hs[i].0.len() != 13);
            }
        },
    }
}

/// Builds the common header list for the given credential.
pub fn common_headers(token: &Option<String>) -> (r: Vec<(String, String)>)
    ensures
        r.deep_view() == spec_common_headers(token.deep_view()),
{
    let mut hs: Vec<(String, String)> = Vec::new();
    hs.push(
        (
            String::from_str("Accept"),
            String::from_str("application/vnd.github.v3+json"),
        ),
    );
    hs.push((String::from_str("User-Agent"), String::from_str("CatalystBot")));
    hs.push((String::from_str("Connection"), String::from_str("close")));
    match token {
        Some(t) => {
            hs.push((String::from_str("Authorization"), t.clone()));
            assert(hs.deep_view() =~= spec_common_headers(token.deep_view()));
        },
        None => {
            assert(hs.deep_view() =~= spec_common_headers(token.deep_view()));
        },
    }
    hs
}

/// Turns a raw transport outcome into the typed result: a transport failure
/// becomes the network error kind with the transport's message; a response
/// is decoded, and a body of the wrong shape becomes the decode error kind.
pub fn complete_request<D: JsonDecode>(outcome: Result<HttpResponse, String>) -> (r: Result<
    D,
    GitErr,
>)
    ensures
        match outcome {
            Err(m) => r == Err::<D, GitErr>(GitErr::NetworkErr(m)),
            Ok(resp) => match r {
                Ok(d) => spec_decode_body::<D>(resp.body@) == Some(d.deep_view()),
                Err(e) => e matches GitErr::DecodeErr(_) && spec_decode_body::<D>(resp.body@)
                    is None,
            },
        },
{
    match outcome {
        Err(m) => Err(GitErr::NetworkErr(m)),
        Ok(resp) => match decode_body::<D>(resp.body.as_str()) {
            Ok(d) => Ok(d),
            Err(m) => Err(GitErr::DecodeErr(m)),
        },
    }
}

/// The typed request executor's two entry points: send with no payload, and
/// send with a typed payload.  Both run the strict pipeline
/// encode-dispatch-decode, each stage short-circuiting, and both return one
/// of the unified error kinds on failure — never the stub kind, and the
/// encode kind exactly when the payload cannot be represented.
pub trait SimpleClient {
    fn request_without_payload<D: JsonDecode>(&self, method: Method, url: Url) -> (r: Result<
        D,
        GitErr,
    >)
        ensures
            r matches Ok(d) ==> exists|b: Seq<char>|
                #[trigger] spec_decode_body::<D>(b) == Some(d.deep_view()),
            !(r matches Err(GitErr::EncodeErr(_))),
            !(r matches Err(GitErr::NotImplemented(_))),
    ;

    fn request_with_payload<D: JsonDecode, E: JsonEncode>(
        &self,
        method: Method,
        url: Url,
        body: E,
    ) -> (r: Result<D, GitErr>)
        ensures
            body.spec_to_json() is None <==> r matches Err(GitErr::EncodeErr(_)),
            r matches Ok(d) ==> body.spec_to_json() is Some && (exists|b: Seq<char>|
                #[trigger] spec_decode_body::<D>(b) == Some(d.deep_view())),
            !(r matches Err(GitErr::NotImplemented(_))),
    ;
}

/// The client instance: the transport it dispatches through and the
/// credential configured at construction.  Both are immutable for the life
/// of the instance; every call borrows the client.
pub struct GithubClient<C: TransportClient> {
    transport: C,
    token: Option<String>,
}

impl<C: TransportClient> GithubClient<C> {
    /// The configured credential, as the contracts speak of it.
    pub closed spec fn spec_token(&self) -> Option<Seq<char>> {
        self.token.deep_view()
    }

    /// Builds a client around a transport, with an optional credential that
    /// no later call changes.
    pub fn new(transport: C, token: Option<String>) -> (r: GithubClient<C>)
        ensures
            r.spec_token() == token.deep_view(),
    {
        GithubClient { transport, token }
    }

    /// Builds the one request every operation sends: the caller's verb,
    /// endpoint and body, under the common headers.  Its contract is the
    /// header invariant's tie to the dispatched request: the built request
    /// carries exactly the common headers for the configured credential.
    pub fn build_common_request(&self, method: Method, url: Url, body: Body) -> (req: HttpRequest)
        ensures
            req.method == method,
            req.url == url,
            req.body == body,
            req.headers.deep_view() == spec_common_headers(self.spec_token()),
    {
        HttpRequest { method, url, headers: common_headers(&self.token), body }
    }

    /// Performs one dispatch: builds the request and exchanges it through
    /// the transport, with no retry.
    fn request(&self, method: Method, url: Url, body: Option<Body>) -> Result<
        HttpResponse,
        String,
    > {
        let b = match body {
            Some(b) => b,
            None => String::new(),
        };
        let req = self.build_common_request(method, url, b);
        self.transport.send(&req)
    }
}

impl<C: TransportClient> SimpleClient for GithubClient<C> {
    fn request_without_payload<D: JsonDecode>(&self, method: Method, url: Url) -> (r: Result<
        D,
        GitErr,
    >) {
        let outcome = self.request(method, url, None);
        let r = complete_request::<D>(outcome);
        proof {
            if r is Ok {
                let b = outcome->Ok_0.body@;
                assert(spec_decode_body::<D>(b) == Some(r->Ok_0.deep_view()));
            }
        }
        r
    }

    fn request_with_payload<D: JsonDecode, E: JsonEncode>(
        &self,
        method: Method,
        url: Url,
        body: E,
    ) -> (r: Result<D, GitErr>) {
        match encode_body(&body) {
            Err(m) => Err(GitErr::EncodeErr(m)),
            Ok(encoded) => {
                let outcome = self.request(method, url, Some(encoded));
                let r = complete_request::<D>(outcome);
                proof {
                    if r is Ok {
                        let b = outcome->Ok_0.body@;
                        assert(spec_decode_body::<D>(b) == Some(r->Ok_0.deep_view()));
                    }
                }
                r
            },
        }
    }
}

} // verus!
