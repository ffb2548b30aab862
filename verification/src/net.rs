//! Picking the endpoint to connect to out of what name resolution returned.

use vstd::prelude::*;
use vstd::string::*;

verus! {

/// An internet address, by its octets.
#[derive(Clone, Copy, Debug, PartialEq, Eq)]
pub enum IpAddress {
    V4([u8; 4]),
    V6([u8; 16]),
}

/// A network endpoint: an address and a port.
#[derive(Clone, Copy, Debug, PartialEq, Eq)]
pub struct Endpoint {
    pub ip: IpAddress,
    pub port: u16,
}

/// What name resolution came back with.
#[derive(Clone, Debug, PartialEq, Eq)]
pub enum Resolution {
    /// The resolver failed. `not_found` tells a name that does not exist
    /// from every other failure; `cause` is the resolver's own account.
    Failed { not_found: bool, cause: String },
    /// The resolver returned these endpoints, in its order.
    Resolved(Vec<Endpoint>),
}

pub enum ResolutionView {
    Failed { not_found: bool, cause: Seq<char> },
    Resolved(Seq<Endpoint>),
}

impl View for Resolution {
    type V = ResolutionView;

    open spec fn view(&self) -> ResolutionView {
        match self {
            Resolution::Failed { not_found, cause } => ResolutionView::Failed {
                not_found: *not_found,
                cause: cause@,
            },
            Resolution::Resolved(endpoints) => ResolutionView::Resolved(endpoints@),
        }
    }
}

/// Why no endpoint could be had for a host.
#[derive(Clone, Debug, PartialEq, Eq)]
pub enum NetError {
    /// The name does not exist; holds the host.
    DnsNotFound(String),
    /// The resolver failed; holds its account of the failure.
    Resolve(String),
    /// The name exists but has no address; holds the host.
    NoAddrs(String),
}

pub enum NetErrorView {
    DnsNotFound(Seq<char>),
    Resolve(Seq<char>),
    NoAddrs(Seq<char>),
}

impl View for NetError {
    type V = NetErrorView;

    open spec fn view(&self) -> NetErrorView {
        match self {
            NetError::DnsNotFound(host) => NetErrorView::DnsNotFound(host@),
            NetError::Resolve(cause) => NetErrorView::Resolve(cause@),
            NetError::NoAddrs(host) => NetErrorView::NoAddrs(host@),
        }
    }
}

/// The endpoint to use for `host`: the first one resolved.
pub open spec fn first_addr(host: Seq<char>, resolution: ResolutionView) -> Result<
    Endpoint,
    NetErrorView,
> {
    match resolution {
        ResolutionView::Failed { not_found, cause } => if not_found {
            Err(NetErrorView::DnsNotFound(host))
        } else {
            Err(NetErrorView::Resolve(cause))
        },
        ResolutionView::Resolved(endpoints) => if endpoints.len() > 0 {
            Ok(endpoints[0])
        } else {
            Err(NetErrorView::NoAddrs(host))
        },
    }
}

/// The view of a lookup's result.
pub open spec fn lookup_view(r: Result<Endpoint, NetError>) -> Result<Endpoint, NetErrorView> {
    match r {
        Ok(endpoint) => Ok(endpoint),
        Err(e) => Err(e@),
    }
}

/// Picks the endpoint to connect to from what the resolver returned for
/// `host`. Nothing is retried here.
pub fn lookup_first_addr(host: &str, resolution: Resolution) -> (r: Result<Endpoint, NetError>)
    ensures
        lookup_view(r) == first_addr(host@, resolution@),
{
    match resolution {
        Resolution::Failed { not_found, cause } => {
            if not_found {
                Err(NetError::DnsNotFound(host.to_owned()))
            } else {
                Err(NetError::Resolve(cause))
            }
        },
        Resolution::Resolved(endpoints) => {
            if endpoints.len() > 0 {
                Ok(endpoints[0])
            } else {
                Err(NetError::NoAddrs(host.to_owned()))
            }
        },
    }
}

/// The text an error is reported with.
pub open spec fn net_error_text(e: NetErrorView) -> Seq<char> {
    match e {
        NetErrorView::DnsNotFound(host) => "DNS name not found for "@ + host,
        NetErrorView::Resolve(cause) => "couldn't resolve host: "@ + cause,
        NetErrorView::NoAddrs(host) => "no addreses resolved from "@ + host,
    }
}

impl NetError {
    /// The text this error is reported with.
    pub fn message(&self) -> (text: String)
        ensures
            text@ == net_error_text(self@),
    {
        match self {
            NetError::DnsNotFound(host) => "DNS name not found for ".to_owned().concat(
                host.as_str(),
            ),
            NetError::Resolve(cause) => "couldn't resolve host: ".to_owned().concat(cause.as_str()),
            NetError::NoAddrs(host) => "no addreses resolved from ".to_owned().concat(
                host.as_str(),
            ),
        }
    }
}

} // verus!
