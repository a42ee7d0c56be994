use vstd::prelude::*;

use crate::addr::{Endpoint, Family, IpAddress, unspecified_endpoint};

verus! {

/// The platform a socket is set up on, where multicast set-up differs.
#[derive(Clone, Copy, Debug, PartialEq, Eq, Structural)]
pub enum Platform {
    Unix,
    MacOs,
    Windows,
}

/// Interface index that macOS multicast traffic goes through (`en0`).
pub const MACOS_MULTICAST_INTERFACE: u32 = 12;

/// One step of setting up a UDP socket, in the order a plan lists them.
#[derive(Clone, Copy, Debug, PartialEq, Eq, Structural)]
pub enum SocketOp {
    /// Create a UDP socket of the family.
    Open(Family),
    /// Allow several sockets to share the local address and port.
    Reuse,
    /// Keep an IPv6 socket from receiving IPv4 traffic.
    OnlyV6,
    /// Send IPv6 multicast through the interface of this index.
    MulticastInterfaceV6(u32),
    /// Join the IPv4 group on the unspecified (all) interface.
    JoinV4(u32),
    /// Join the IPv6 group on the interface of this index.
    JoinV6(u128, u32),
    Bind(Endpoint),
    Connect(Endpoint),
}

/// Interface index used when a platform needs no search for one.
pub open spec fn default_interface_of(platform: Platform) -> u32 {
    match platform {
        Platform::MacOs => MACOS_MULTICAST_INTERFACE,
        _ => 0,
    }
}

pub fn default_interface(platform: Platform) -> (r: u32)
    ensures
        r == default_interface_of(platform),
{
    match platform {
        Platform::MacOs => MACOS_MULTICAST_INTERFACE,
        _ => 0,
    }
}

/// The steps that make a listen handle for `addr`.
///
/// A unicast address is bound directly. An IPv4 group is bound (on Windows
/// through the unspecified address) and then joined on all interfaces. An
/// IPv6 group is joined on `interface`, which is also made the multicast
/// interface, before the socket is bound to the unspecified address with the
/// group's port; Windows then connects it to the group.
pub open spec fn listen_ops(addr: Endpoint, platform: Platform, interface: u32) -> Seq<SocketOp> {
    if !addr.multicast() {
        seq![SocketOp::Open(addr.family_of()), SocketOp::Reuse, SocketOp::Bind(addr)]
    } else {
        match addr.ip {
            IpAddress::V4(group) => seq![
                SocketOp::Open(Family::V4),
                SocketOp::Reuse,
                SocketOp::Bind(
                    if platform == Platform::Windows {
                        unspecified_endpoint(Family::V4, addr.port)
                    } else {
                        addr
                    },
                ),
                SocketOp::JoinV4(group),
            ],
            IpAddress::V6(group) => seq![
                SocketOp::Open(Family::V6),
                SocketOp::Reuse,
                SocketOp::OnlyV6,
                SocketOp::MulticastInterfaceV6(interface),
                SocketOp::JoinV6(group, interface),
                SocketOp::Bind(unspecified_endpoint(Family::V6, addr.port)),
            ] + if platform == Platform::Windows {
                seq![SocketOp::Connect(addr)]
            } else {
                Seq::empty()
            },
        }
    }
}

/// The steps that make a send handle for `target`.
///
/// The socket is bound to an ephemeral port of the unspecified address. A
/// group target is joined first (IPv4 on all interfaces, IPv6 on the
/// platform's default interface). The socket is then connected: to the
/// target, or for an IPv6 group to the unspecified address with the
/// target's port.
pub open spec fn sender_ops(target: Endpoint, platform: Platform) -> Seq<SocketOp> {
    let family = target.family_of();
    let join: Seq<SocketOp> = if !target.multicast() {
        Seq::empty()
    } else {
        match target.ip {
            IpAddress::V4(group) => seq![SocketOp::JoinV4(group)],
            IpAddress::V6(group) => seq![SocketOp::JoinV6(group, default_interface_of(platform))],
        }
    };
    seq![SocketOp::Open(family), SocketOp::Bind(unspecified_endpoint(family, 0))] + join + seq![
        SocketOp::Connect(sender_peer(target)),
    ]
}

/// The peer a send handle for `target` is connected to.
pub open spec fn sender_peer(target: Endpoint) -> Endpoint {
    if target.multicast() && target.family_of() == Family::V6 {
        unspecified_endpoint(Family::V6, target.port)
    } else {
        target
    }
}

/// Counts the steps of `ops` that join a multicast group.
pub open spec fn join_count(ops: Seq<SocketOp>) -> nat
    decreases ops.len(),
{
    if ops.len() == 0 {
        0
    } else {
        (if is_join(ops.last()) { 1nat } else { 0nat }) + join_count(ops.drop_last())
    }
}

pub open spec fn is_join(op: SocketOp) -> bool {
    op is JoinV4 || op is JoinV6
}

/// The steps that make a listen handle for `addr`; see [`listen_ops`].
/// `interface` matters only for an IPv6 group.
pub fn listen_plan(addr: Endpoint, platform: Platform, interface: u32) -> (r: Vec<SocketOp>)
    ensures
        r@ == listen_ops(addr, platform, interface),
{
    if !addr.is_multicast() {
        return vec![SocketOp::Open(addr.family()), SocketOp::Reuse, SocketOp::Bind(addr)];
    }
    match addr.ip {
        IpAddress::V4(group) => {
            let local = if platform == Platform::Windows {
                Endpoint::unspecified(Family::V4, addr.port)
            } else {
                addr
            };
            let r = vec![
                SocketOp::Open(Family::V4),
                SocketOp::Reuse,
                SocketOp::Bind(local),
                SocketOp::JoinV4(group),
            ];
            assert(r@ =~= listen_ops(addr, platform, interface));
            r
        },
        IpAddress::V6(group) => {
            let mut r = vec![
                SocketOp::Open(Family::V6),
                SocketOp::Reuse,
                SocketOp::OnlyV6,
                SocketOp::MulticastInterfaceV6(interface),
                SocketOp::JoinV6(group, interface),
                SocketOp::Bind(Endpoint::unspecified(Family::V6, addr.port)),
            ];
            if platform == Platform::Windows {
                r.push(SocketOp::Connect(addr));
            }
            assert(r@ =~= listen_ops(addr, platform, interface));
            r
        },
    }
}

/// The steps that make a send handle for `target`; see [`sender_ops`].
pub fn sender_plan(target: Endpoint, platform: Platform) -> (r: Vec<SocketOp>)
    ensures
        r@ == sender_ops(target, platform),
{
    let family = target.family();
    let mut r = vec![SocketOp::Open(family), SocketOp::Bind(Endpoint::unspecified(family, 0))];
    let multicast = target.is_multicast();
    if multicast {
        match target.ip {
            IpAddress::V4(group) => r.push(SocketOp::JoinV4(group)),
            IpAddress::V6(group) => r.push(SocketOp::JoinV6(group, default_interface(platform))),
        }
    }
    let peer = if multicast && family == Family::V6 {
        Endpoint::unspecified(Family::V6, target.port)
    } else {
        target
    };
    r.push(SocketOp::Connect(peer));
    assert(r@ =~= sender_ops(target, platform));
    r
}

} // verus!
