use vstd::prelude::*;

use crate::addr::{IpAddr, Ipv4Addr, Ipv6Addr};
use crate::ipsource::{Ipv4Source, Ipv6Source, SourceError};
use crate::text::concat;

verus! {

/// The address that an echo service reports for the caller. The caller fetches the body of
/// [`ICanHazIpSource::url`] once, reads it as one address, and hands the outcome to
/// [`ICanHazIpSource::complete_request`]; the address's syntax decides its family.
#[derive(Debug)]
pub struct ICanHazIpSource {
    url: String,
    response: Option<Result<IpAddr, Error>>,
}

/// Why an echo service gave no address.
#[derive(Clone, Debug, PartialEq, Eq)]
pub enum Error {
    /// The request failed on its way, or no body came back.
    RequestError(String),
    /// The body is not one address.
    ResponseError(String),
}

impl Error {
    /// A copy of the error, message included.
    pub fn duplicate(&self) -> (r: Error)
        ensures
            r == *self,
    {
        match self {
            Error::RequestError(m) => Error::RequestError(m.clone()),
            Error::ResponseError(m) => Error::ResponseError(m.clone()),
        }
    }

    pub open spec fn spec_to_string(&self) -> Seq<char> {
        match self {
            Error::RequestError(m) => "Failed to request IP address: "@ + m@,
            Error::ResponseError(m) => "Failed to parse IP address from response: "@ + m@,
        }
    }

    /// The error as a sentence, with the underlying message at its end.
    pub fn to_string(&self) -> (r: String)
        ensures
            r@ == self.spec_to_string(),
    {
        match self {
            Error::RequestError(m) => concat("Failed to request IP address: ", m.as_str()),
            Error::ResponseError(m) => concat(
                "Failed to parse IP address from response: ",
                m.as_str(),
            ),
        }
    }
}

/// A failed request is a transport failure; an unreadable body a parse failure.
impl From<Error> for SourceError {
    fn from(value: Error) -> (r: SourceError) {
        match value {
            Error::RequestError(m) => SourceError::TransportFailure(m),
            Error::ResponseError(m) => SourceError::ResponseParseFailure(m),
        }
    }
}

impl vstd::std_specs::convert::FromSpecImpl<Error> for SourceError {
    open spec fn obeys_from_spec() -> bool {
        true
    }

    open spec fn from_spec(v: Error) -> SourceError {
        match v {
            Error::RequestError(m) => SourceError::TransportFailure(m),
            Error::ResponseError(m) => SourceError::ResponseParseFailure(m),
        }
    }
}

impl ICanHazIpSource {
    pub closed spec fn spec_url(&self) -> Seq<char> {
        self.url@
    }

    /// The outcome of the request, once made.
    pub closed spec fn spec_response(&self) -> Option<Result<IpAddr, Error>> {
        self.response
    }

    pub open spec fn spec_ready(&self) -> bool {
        self.spec_response() is Some
    }

    pub fn new(url: &str) -> (r: ICanHazIpSource)
        ensures
            r.spec_url() == url@,
            r.spec_response() is None,
    {
        ICanHazIpSource { url: url.to_owned(), response: None }
    }

    /// The service to ask.
    pub fn url(&self) -> (r: &str)
        ensures
            r@ == self.spec_url(),
    {
        self.url.as_str()
    }

    /// Whether the request is still to be made.
    pub fn needs_request(&self) -> (r: bool)
        ensures
            r == self.spec_response() is None,
    {
        self.response.is_none()
    }

    /// Records the outcome of the request: the address the body holds, or why there is none.
    /// A source whose request was already made keeps its first outcome.
    pub fn complete_request(&mut self, outcome: Result<IpAddr, Error>)
        ensures
            old(self).spec_response() is Some ==> *final(self) == *old(self),
            old(self).spec_response() is None ==> final(self).spec_response() == Some(outcome),
            final(self).spec_url() == old(self).spec_url(),
    {
        if self.response.is_none() {
            self.response = Some(outcome);
        }
    }
}

impl Ipv4Source<Error> for ICanHazIpSource {
    open spec fn spec_ready(&self) -> bool {
        self.spec_ready()
    }

    open spec fn spec_ipv4(&self) -> Result<Set<Ipv4Addr>, Error> {
        match self.spec_response() {
            Some(Ok(IpAddr::V4(a))) => Ok(set![a]),
            Some(Ok(IpAddr::V6(_))) => Ok(Set::empty()),
            Some(Err(e)) => Err(e),
            None => Ok(Set::empty()),
        }
    }

    fn get_ipv4(&self) -> (r: Result<Vec<Ipv4Addr>, Error>) {
        match &self.response {
            Some(Ok(IpAddr::V4(a))) => {
                let v = vec![*a];
                assert(v@.to_set() =~= set![*a]) by {
                    assert(v@[0] == *a);
                }
                Ok(v)
            },
            Some(Err(e)) => Err(e.duplicate()),
            _ => {
                let v: Vec<Ipv4Addr> = Vec::new();
                assert(v@.to_set() =~= Set::empty());
                Ok(v)
            },
        }
    }
}

impl Ipv6Source<Error> for ICanHazIpSource {
    open spec fn spec_ready(&self) -> bool {
        self.spec_ready()
    }

    open spec fn spec_ipv6(&self) -> Result<Set<Ipv6Addr>, Error> {
        match self.spec_response() {
            Some(Ok(IpAddr::V6(a))) => Ok(set![a]),
            Some(Ok(IpAddr::V4(_))) => Ok(Set::empty()),
            Some(Err(e)) => Err(e),
            None => Ok(Set::empty()),
        }
    }

    fn get_ipv6(&self) -> (r: Result<Vec<Ipv6Addr>, Error>) {
        match &self.response {
            Some(Ok(IpAddr::V6(a))) => {
                let v = vec![*a];
                assert(v@.to_set() =~= set![*a]) by {
                    assert(v@[0] == *a);
                }
                Ok(v)
            },
            Some(Err(e)) => Err(e.duplicate()),
            _ => {
                let v: Vec<Ipv6Addr> = Vec::new();
                assert(v@.to_set() =~= Set::empty());
                Ok(v)
            },
        }
    }
}

} // verus!
