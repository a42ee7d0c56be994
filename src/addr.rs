use vstd::prelude::*;

verus! {

/// The two address families.
#[derive(Clone, Copy, Debug, PartialEq, Eq, Structural)]
pub enum Family {
    V4,
    V6,
}

/// An IP address, held as the number that its octets spell out, most
/// significant octet first (`127.0.0.1` is `0x7f00_0001`).
#[derive(Clone, Copy, Debug, PartialEq, Eq, Structural)]
pub enum IpAddress {
    V4(u32),
    V6(u128),
}

/// Lowest IPv4 multicast address, `224.0.0.0`.
pub const V4_MULTICAST_FIRST: u32 = 0xe000_0000;

/// Highest IPv4 multicast address, `239.255.255.255`.
pub const V4_MULTICAST_LAST: u32 = 0xefff_ffff;

/// Lowest IPv6 multicast address, `ff00::`.
pub const V6_MULTICAST_FIRST: u128 = 0xff00_0000_0000_0000_0000_0000_0000_0000;

impl IpAddress {
    pub open spec fn family_of(self) -> Family {
        match self {
            IpAddress::V4(_) => Family::V4,
            IpAddress::V6(_) => Family::V6,
        }
    }

    /// The standard multicast ranges: `224.0.0.0/4` and `ff00::/8`.
    pub open spec fn in_multicast_range(self) -> bool {
        match self {
            IpAddress::V4(b) => V4_MULTICAST_FIRST <= b <= V4_MULTICAST_LAST,
            IpAddress::V6(b) => V6_MULTICAST_FIRST <= b,
        }
    }

    pub fn family(&self) -> (r: Family)
        ensures
            r == self.family_of(),
    {
        match self {
            IpAddress::V4(_) => Family::V4,
            IpAddress::V6(_) => Family::V6,
        }
    }

    pub fn is_multicast(&self) -> (r: bool)
        ensures
            r == self.in_multicast_range(),
    {
        match self {
            IpAddress::V4(b) => V4_MULTICAST_FIRST <= *b && *b <= V4_MULTICAST_LAST,
            IpAddress::V6(b) => V6_MULTICAST_FIRST <= *b,
        }
    }

    /// The unspecified address of a family: `0.0.0.0` or `::`.
    pub fn unspecified(family: Family) -> (r: IpAddress)
        ensures
            r == unspecified_ip(family),
    {
        match family {
            Family::V4 => IpAddress::V4(0),
            Family::V6 => IpAddress::V6(0),
        }
    }
}

pub open spec fn unspecified_ip(family: Family) -> IpAddress {
    match family {
        Family::V4 => IpAddress::V4(0),
        Family::V6 => IpAddress::V6(0),
    }
}

/// A resolved socket address: an IP address and a port.
#[derive(Clone, Copy, Debug, PartialEq, Eq, Structural)]
pub struct Endpoint {
    pub ip: IpAddress,
    pub port: u16,
}

impl Endpoint {
    pub open spec fn family_of(self) -> Family {
        self.ip.family_of()
    }

    pub open spec fn multicast(self) -> bool {
        self.ip.in_multicast_range()
    }

    pub fn new(ip: IpAddress, port: u16) -> (r: Endpoint)
        ensures
            r == (Endpoint { ip, port }),
    {
        Endpoint { ip, port }
    }

    pub fn family(&self) -> (r: Family)
        ensures
            r == self.family_of(),
    {
        self.ip.family()
    }

    pub fn is_multicast(&self) -> (r: bool)
        ensures
            r == self.multicast(),
    {
        self.ip.is_multicast()
    }

    /// The unspecified address of `family` with the given port.
    pub fn unspecified(family: Family, port: u16) -> (r: Endpoint)
        ensures
            r == unspecified_endpoint(family, port),
    {
        Endpoint { ip: IpAddress::unspecified(family), port }
    }
}

pub open spec fn unspecified_endpoint(family: Family, port: u16) -> Endpoint {
    Endpoint { ip: unspecified_ip(family), port }
}

/// Why an address string could not be turned into an endpoint.
#[derive(Clone, Copy, Debug, PartialEq, Eq, Structural)]
pub enum AddressError {
    /// The string is not of the form `host:port` or `[host]:port`, or its
    /// host could not be looked up.
    Unresolved,
    /// The host resolved to no address at all.
    NoCandidates,
}

/// Picks the address that a resolution stands for: the first candidate.
/// Resolution that yields nothing is a configuration error.
pub fn select_first(candidates: &Vec<Endpoint>) -> (r: Result<Endpoint, AddressError>)
    ensures
        candidates@.len() > 0 <==> r is Ok,
        candidates@.len() > 0 ==> r == Ok::<Endpoint, AddressError>(candidates@[0]),
        candidates@.len() == 0 ==> r == Err::<Endpoint, AddressError>(AddressError::NoCandidates),
{
    if candidates.len() == 0 {
        Err(AddressError::NoCandidates)
    } else {
        Ok(candidates[0])
    }
}

/// The address a lookup stands for: `None` is a lookup that failed,
/// `Some` the candidates it found, of which the first is taken.
pub fn resolution(lookup: Option<Vec<Endpoint>>) -> (r: Result<Endpoint, AddressError>)
    ensures
        lookup is None ==> r == Err::<Endpoint, AddressError>(AddressError::Unresolved),
        lookup is Some && lookup->0@.len() == 0 ==> r == Err::<Endpoint, AddressError>(
            AddressError::NoCandidates,
        ),
        lookup is Some && lookup->0@.len() > 0 ==> r == Ok::<Endpoint, AddressError>(lookup->0@[0]),
{
    match lookup {
        None => Err(AddressError::Unresolved),
        Some(candidates) => select_first(&candidates),
    }
}

} // verus!
