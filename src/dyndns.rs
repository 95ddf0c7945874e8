use vstd::prelude::*;

use crate::addr::IpAddr;
use crate::config::{base64_of, spec_basic_header, DynDns};
use crate::reconcile::UpdateDecision;

verus! {

/// A dynamic-DNS provider: where to send updates, how to authenticate, and which query
/// parameter carries each family's address.
#[derive(Clone, Debug)]
pub struct Client {
    endpoint: String,
    authorization: Option<String>,
    ipv4_query: String,
    ipv6_query: String,
}

/// One update to send: a GET of `endpoint` with the query pairs, in order, and the
/// `Authorization` header where there is one.
#[derive(Clone, Debug)]
pub struct UpdateRequest {
    pub endpoint: String,
    pub query: Vec<(String, IpAddr)>,
    pub authorization: Option<String>,
}

impl Client {
    pub closed spec fn spec_endpoint(&self) -> Seq<char> {
        self.endpoint@
    }

    pub closed spec fn spec_authorization(&self) -> Option<Seq<char>> {
        match self.authorization {
            Some(a) => Some(a@),
            None => None,
        }
    }

    pub closed spec fn spec_ipv4_query(&self) -> Seq<char> {
        self.ipv4_query@
    }

    pub closed spec fn spec_ipv6_query(&self) -> Seq<char> {
        self.ipv6_query@
    }

    pub fn new(endpoint: &str, authorization: Option<&str>, ipv4_query: &str, ipv6_query: &str) -> (r:
        Client)
        ensures
            r.spec_endpoint() == endpoint@,
            r.spec_authorization() == match authorization {
                Some(a) => Some(a@),
                None => None::<Seq<char>>,
            },
            r.spec_ipv4_query() == ipv4_query@,
            r.spec_ipv6_query() == ipv6_query@,
    {
        let authorization = match authorization {
            Some(a) => Some(a.to_owned()),
            None => None,
        };
        Client {
            endpoint: endpoint.to_owned(),
            authorization,
            ipv4_query: ipv4_query.to_owned(),
            ipv6_query: ipv6_query.to_owned(),
        }
    }

    /// The provider that a configuration names, with the basic-auth header built from its
    /// credentials.
    pub fn from_config(dyndns: &DynDns) -> (r: Client)
        ensures
            r.spec_endpoint() == dyndns.endpoint@,
            r.spec_authorization() == match dyndns.basic_auth {
                Some(auth) => Some(spec_basic_header(base64_of(auth.spec_credentials()))),
                None => None::<Seq<char>>,
            },
            r.spec_ipv4_query() == dyndns.query.ipv4@,
            r.spec_ipv6_query() == dyndns.query.ipv6@,
    {
        let authorization = match &dyndns.basic_auth {
            Some(auth) => Some(auth.to_header()),
            None => None,
        };
        Client {
            endpoint: dyndns.endpoint.clone(),
            authorization,
            ipv4_query: dyndns.query.ipv4.clone(),
            ipv6_query: dyndns.query.ipv6.clone(),
        }
    }

    pub fn endpoint(&self) -> (r: &str)
        ensures
            r@ == self.spec_endpoint(),
    {
        self.endpoint.as_str()
    }

    /// The `Authorization` header value, where the provider asks for one.
    pub fn authorization(&self) -> (r: Option<&str>)
        ensures
            match r {
                Some(a) => self.spec_authorization() == Some(a@),
                None => self.spec_authorization() is None,
            },
    {
        match &self.authorization {
            Some(a) => Some(a.as_str()),
            None => None,
        }
    }

    /// The query parameter that carries an address of `ip`'s family.
    pub fn query_key(&self, ip: &IpAddr) -> (r: &str)
        ensures
            r@ == match ip {
                IpAddr::V4(_) => self.spec_ipv4_query(),
                IpAddr::V6(_) => self.spec_ipv6_query(),
            },
    {
        match ip {
            IpAddr::V4(_) => self.ipv4_query.as_str(),
            IpAddr::V6(_) => self.ipv6_query.as_str(),
        }
    }

    /// The update that publishes a decision's two representatives: the IPv4 pair first, then
    /// the IPv6 pair, and the provider's `Authorization` header.
    pub fn update_request(&self, decision: &UpdateDecision) -> (r: UpdateRequest)
        ensures
            r.endpoint@ == self.spec_endpoint(),
            r.query@.len() == 2,
            r.query@[0].0@ == self.spec_ipv4_query(),
            r.query@[0].1 == IpAddr::V4(decision.ipv4_representative),
            r.query@[1].0@ == self.spec_ipv6_query(),
            r.query@[1].1 == IpAddr::V6(decision.ipv6_representative),
            match r.authorization {
                Some(a) => self.spec_authorization() == Some(a@),
                None => self.spec_authorization() is None,
            },
    {
        let query = vec![
            (self.ipv4_query.clone(), IpAddr::V4(decision.ipv4_representative)),
            (self.ipv6_query.clone(), IpAddr::V6(decision.ipv6_representative)),
        ];
        let authorization = match &self.authorization {
            Some(a) => Some(a.clone()),
            None => None,
        };
        UpdateRequest { endpoint: self.endpoint.clone(), query, authorization }
    }
}

} // verus!
