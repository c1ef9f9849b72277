//! The protocol of the Anthropic messages API.

pub mod failure;
pub mod laws;
pub mod operation_laws;
pub mod request;
pub mod response;
pub mod stream;

use vstd::prelude::*;
use vstd::string::*;

use crate::auth::{api_key_header, header_views};
use crate::text::{drop_trailing, ends_in, ends_in_text, without_trailing};

verus! {

/// The Anthropic protocol, with the key that its requests carry.
#[derive(Debug)]
pub struct AnthropicProtocol {
    api_key: String,
}

/// The key is all that a protocol holds.
impl View for AnthropicProtocol {
    type V = Seq<char>;

    closed spec fn view(&self) -> Seq<char> {
        self.api_key@
    }
}

impl Clone for AnthropicProtocol {
    fn clone(&self) -> (copy: Self)
        ensures
            copy@ == self@,
    {
        AnthropicProtocol { api_key: self.api_key.clone() }
    }
}

/// The address to which chat requests go. The base address may end in slashes and may name the
/// version of the API.
pub open spec fn endpoint(base_url: Seq<char>) -> Seq<char> {
    let base = without_trailing(base_url, '/');
    if ends_in(base, "/v1"@) {
        base + "/messages"@
    } else {
        base + "/v1/messages"@
    }
}

/// The header that carries a key.
pub open spec fn key_headers(api_key: Seq<char>) -> Seq<(Seq<char>, Seq<char>)> {
    seq![("x-api-key"@, api_key)]
}

/// The headers of a request: the key, and the version of the API.
pub open spec fn request_headers(api_key: Seq<char>) -> Seq<(Seq<char>, Seq<char>)> {
    key_headers(api_key).push(("anthropic-version"@, "2023-06-01"@))
}

impl AnthropicProtocol {
    /// The protocol with the given key.
    pub fn new(api_key: &str) -> (protocol: Self)
        ensures
            protocol@ == api_key@,
    {
        AnthropicProtocol { api_key: api_key.to_owned() }
    }

    /// The key.
    pub fn api_key(&self) -> (api_key: &str)
        ensures
            api_key@ == self@,
    {
        self.api_key.as_str()
    }

    /// The name of the protocol.
    pub fn name(&self) -> (name: &str)
        ensures
            name@ == "anthropic"@,
    {
        "anthropic"
    }

    /// The address to which chat requests go, the same for every model.
    pub fn chat_endpoint(&self, base_url: &str, _model: &str) -> (url: String)
        ensures
            url@ == endpoint(base_url@),
    {
        let base = drop_trailing(base_url, '/');
        if ends_in_text(base, "/v1") {
            base.to_owned().concat("/messages")
        } else {
            base.to_owned().concat("/v1/messages")
        }
    }

    /// The headers of a request with the protocol's own key.
    pub fn auth_headers(&self) -> (headers: Vec<(String, String)>)
        ensures
            header_views(headers@) == request_headers(self@),
    {
        let mut headers = api_key_header(self.api_key.as_str(), "x-api-key");
        let ghost before = headers@;
        headers.push(("anthropic-version".to_owned(), "2023-06-01".to_owned()));
        assert(header_views(headers@) =~= header_views(before).push(
            ("anthropic-version"@, "2023-06-01"@),
        ));
        headers
    }

    /// The headers that put another key in place of the protocol's own.
    pub fn build_auth_headers_for_override(&self, api_key: &str) -> (headers: Vec<(String, String)>)
        ensures
            header_views(headers@) == key_headers(api_key@),
    {
        api_key_header(api_key, "x-api-key")
    }
}

} // verus!
