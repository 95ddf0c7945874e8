use vstd::prelude::*;

use crate::text::concat;

verus! {

/// What the tool is told to watch and whom to tell.
#[derive(Clone, Debug)]
pub struct Config {
    /// The interface whose addresses are current.
    pub interface_name: Option<String>,
    /// An echo service that reports a further current address.
    pub icanhazip_url: Option<String>,
    pub dyndns: DynDns,
}

/// The dynamic-DNS record and the provider that updates it.
#[derive(Clone, Debug)]
pub struct DynDns {
    pub domain_name: String,
    pub endpoint: String,
    pub basic_auth: Option<Auth>,
    pub query: Query,
}

/// Credentials for HTTP basic authentication.
#[derive(Clone, Debug)]
pub struct Auth {
    pub username: String,
    pub password: String,
}

/// The names of the query parameters that carry each family's address.
#[derive(Clone, Debug)]
pub struct Query {
    pub ipv4: String,
    pub ipv6: String,
}

/// The standard base64 encoding, with padding, of the UTF-8 bytes of `s`.
pub uninterp spec fn base64_of(s: Seq<char>) -> Seq<char>;

/// Relies on `base64::Engine::encode` with the `STANDARD` engine: the padded standard base64
/// of the bytes of `s`; nothing for nothing.
#[verifier::external_body]
fn encode_base64(s: &str) -> (r: String)
    ensures
        r@ == base64_of(s@),
        s@.len() == 0 ==> r@.len() == 0,
{
    base64::Engine::encode(&base64::engine::general_purpose::STANDARD, s)
}

/// The value of an `Authorization` header for already encoded credentials.
pub open spec fn spec_basic_header(credentials: Seq<char>) -> Seq<char> {
    "Basic "@ + credentials
}

/// `Basic <credentials>`.
pub fn basic_header(credentials: &str) -> (r: String)
    ensures
        r@ == spec_basic_header(credentials@),
{
    concat("Basic ", credentials)
}

impl Auth {
    /// `username:password`, the text that basic authentication encodes.
    pub open spec fn spec_credentials(&self) -> Seq<char> {
        self.username@ + ":"@ + self.password@
    }

    /// The `Authorization` header value: `Basic ` and the base64 of `username:password`.
    pub fn to_header(&self) -> (r: String)
        ensures
            r@ == spec_basic_header(base64_of(self.spec_credentials())),
    {
        let user = concat(self.username.as_str(), ":");
        let credentials = concat(user.as_str(), self.password.as_str());
        let encoded = encode_base64(credentials.as_str());
        basic_header(encoded.as_str())
    }
}

} // verus!
