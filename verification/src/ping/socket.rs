//! The socket domain of an IP version, as the `socket2` crate names it.
//!
//! What this module states of that crate is taken on trust.

use crate::ping::resolve::IPversion;
use socket2::Domain;
use vstd::prelude::*;

verus! {

/// `socket2::Domain`, the address family of a socket. Its value is the
/// operating system's and is not visible here.
#[verifier::external_type_specification]
#[verifier::external_body]
pub struct ExDomain(socket2::Domain);

/// The IP version whose sockets are made in `domain`. The crate's two
/// constructors fix it for the domains that they give; of any other domain
/// nothing is known.
pub uninterp spec fn domain_version(domain: socket2::Domain) -> IPversion;

/// `socket2::Domain::ipv4`: the domain for IPv4 communication, which the
/// operating system calls `AF_INET`. Its number is not claimed.
#[verifier::external_body]
fn domain_ipv4() -> (domain: Domain)
    ensures
        domain_version(domain) == IPversion::V4,
{
    Domain::ipv4()
}

/// `socket2::Domain::ipv6`: the domain for IPv6 communication, which the
/// operating system calls `AF_INET6`. Its number is not claimed.
#[verifier::external_body]
fn domain_ipv6() -> (domain: Domain)
    ensures
        domain_version(domain) == IPversion::V6,
{
    Domain::ipv6()
}

impl IPversion {
    /// The domain in which a socket for this IP version is made: the IPv4
    /// domain for `V4`, the IPv6 domain for `V6`. A run that is not yet
    /// held to a version has none: its version is settled when the
    /// destination is chosen.
    pub fn socket2(&self) -> (domain: Domain)
        requires
            *self != IPversion::Unconstrained,
        ensures
            domain_version(domain) == *self,
    {
        match self {
            IPversion::V4 => domain_ipv4(),
            IPversion::V6 => domain_ipv6(),
            IPversion::Unconstrained => vstd::pervasive::unreached(),
        }
    }
}

} // verus!
