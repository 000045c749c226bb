//! The group subscription set: which kernel multicast groups the monitor joins
//! when it binds its socket.

use vstd::prelude::*;

verus! {

pub const RTMGRP_LINK: u32 = 0x001;
pub const RTMGRP_NOTIFY: u32 = 0x002;
pub const RTMGRP_NEIGH: u32 = 0x004;
pub const RTMGRP_TC: u32 = 0x008;
pub const RTMGRP_IPV4_IFADDR: u32 = 0x010;
pub const RTMGRP_IPV4_MROUTE: u32 = 0x020;
pub const RTMGRP_IPV4_ROUTE: u32 = 0x040;
pub const RTMGRP_IPV4_RULE: u32 = 0x080;
pub const RTMGRP_IPV6_IFADDR: u32 = 0x100;
pub const RTMGRP_IPV6_MROUTE: u32 = 0x200;
pub const RTMGRP_IPV6_ROUTE: u32 = 0x400;
pub const RTMGRP_IPV6_IFINFO: u32 = 0x800;

/// The subscription set as one value: the bits of the twelve monitored groups.
pub const MONITORED_GROUPS: u32 = 0xfff;

/// The port number that leaves the choice of the socket's address to the kernel.
pub const KERNEL_ASSIGNED_PORT: u32 = 0;

/// The multicast groups that the monitor listens to.
#[derive(Clone, Copy, Debug, PartialEq, Eq, Structural)]
pub enum Group {
    /// Link changes.
    Link,
    /// Generic notifications.
    Notify,
    /// Neighbour changes.
    Neighbour,
    /// Traffic-control changes.
    TrafficControl,
    Ipv4Address,
    Ipv4MulticastRoute,
    Ipv4Route,
    Ipv4Rule,
    Ipv6Address,
    Ipv6MulticastRoute,
    Ipv6Route,
    Ipv6InterfaceInfo,
}

impl Group {
    /// The bit that stands for the group in a subscription mask.
    pub open spec fn mask(self) -> u32 {
        match self {
            Group::Link => RTMGRP_LINK,
            Group::Notify => RTMGRP_NOTIFY,
            Group::Neighbour => RTMGRP_NEIGH,
            Group::TrafficControl => RTMGRP_TC,
            Group::Ipv4Address => RTMGRP_IPV4_IFADDR,
            Group::Ipv4MulticastRoute => RTMGRP_IPV4_MROUTE,
            Group::Ipv4Route => RTMGRP_IPV4_ROUTE,
            Group::Ipv4Rule => RTMGRP_IPV4_RULE,
            Group::Ipv6Address => RTMGRP_IPV6_IFADDR,
            Group::Ipv6MulticastRoute => RTMGRP_IPV6_MROUTE,
            Group::Ipv6Route => RTMGRP_IPV6_ROUTE,
            Group::Ipv6InterfaceInfo => RTMGRP_IPV6_IFINFO,
        }
    }

    /// The bit that stands for the group in a subscription mask.
    pub fn bit(self) -> (bit: u32)
        ensures
            bit == self.mask(),
    {
        match self {
            Group::Link => RTMGRP_LINK,
            Group::Notify => RTMGRP_NOTIFY,
            Group::Neighbour => RTMGRP_NEIGH,
            Group::TrafficControl => RTMGRP_TC,
            Group::Ipv4Address => RTMGRP_IPV4_IFADDR,
            Group::Ipv4MulticastRoute => RTMGRP_IPV4_MROUTE,
            Group::Ipv4Route => RTMGRP_IPV4_ROUTE,
            Group::Ipv4Rule => RTMGRP_IPV4_RULE,
            Group::Ipv6Address => RTMGRP_IPV6_IFADDR,
            Group::Ipv6MulticastRoute => RTMGRP_IPV6_MROUTE,
            Group::Ipv6Route => RTMGRP_IPV6_ROUTE,
            Group::Ipv6InterfaceInfo => RTMGRP_IPV6_IFINFO,
        }
    }
}

/// A mask subscribes to a group when it holds the group's bit.
pub open spec fn subscribes(mask: u32, group: Group) -> bool {
    mask & group.mask() == group.mask()
}

/// The twelve group bits joined.
pub open spec fn joined_groups() -> u32 {
    RTMGRP_LINK | RTMGRP_NOTIFY | RTMGRP_NEIGH | RTMGRP_TC | RTMGRP_IPV4_IFADDR
        | RTMGRP_IPV4_MROUTE | RTMGRP_IPV4_ROUTE | RTMGRP_IPV4_RULE | RTMGRP_IPV6_IFADDR
        | RTMGRP_IPV6_MROUTE | RTMGRP_IPV6_ROUTE | RTMGRP_IPV6_IFINFO
}

/// The mask to bind the socket with: the twelve monitored groups joined, and
/// nothing else.
pub fn subscription_mask() -> (mask: u32)
    ensures
        mask == joined_groups(),
        mask == MONITORED_GROUPS,
{
    let mask: u32 = RTMGRP_LINK | RTMGRP_NOTIFY | RTMGRP_NEIGH | RTMGRP_TC | RTMGRP_IPV4_IFADDR
        | RTMGRP_IPV4_MROUTE | RTMGRP_IPV4_ROUTE | RTMGRP_IPV4_RULE | RTMGRP_IPV6_IFADDR
        | RTMGRP_IPV6_MROUTE | RTMGRP_IPV6_ROUTE | RTMGRP_IPV6_IFINFO;
    proof {
        law_joined_groups();
    }
    mask
}

/// Whether `mask` subscribes to `group`.
pub fn is_subscribed(mask: u32, group: Group) -> (subscribed: bool)
    ensures
        subscribed == subscribes(mask, group),
{
    let bit: u32 = group.bit();
    mask & bit == bit
}

/// Joining the twelve group bits gives the subscription set.
pub proof fn law_joined_groups()
    ensures
        joined_groups() == MONITORED_GROUPS,
{
    assert(0x001u32 | 0x002u32 | 0x004u32 | 0x008u32 | 0x010u32 | 0x020u32 | 0x040u32 | 0x080u32
        | 0x100u32 | 0x200u32 | 0x400u32 | 0x800u32 == 0xfffu32) by (bit_vector);
}

/// The subscription set subscribes to every monitored group.
pub proof fn law_every_group_is_monitored(group: Group)
    ensures
        subscribes(MONITORED_GROUPS, group),
{
    assert(0xfffu32 & 0x001u32 == 0x001u32) by (bit_vector);
    assert(0xfffu32 & 0x002u32 == 0x002u32) by (bit_vector);
    assert(0xfffu32 & 0x004u32 == 0x004u32) by (bit_vector);
    assert(0xfffu32 & 0x008u32 == 0x008u32) by (bit_vector);
    assert(0xfffu32 & 0x010u32 == 0x010u32) by (bit_vector);
    assert(0xfffu32 & 0x020u32 == 0x020u32) by (bit_vector);
    assert(0xfffu32 & 0x040u32 == 0x040u32) by (bit_vector);
    assert(0xfffu32 & 0x080u32 == 0x080u32) by (bit_vector);
    assert(0xfffu32 & 0x100u32 == 0x100u32) by (bit_vector);
    assert(0xfffu32 & 0x200u32 == 0x200u32) by (bit_vector);
    assert(0xfffu32 & 0x400u32 == 0x400u32) by (bit_vector);
    assert(0xfffu32 & 0x800u32 == 0x800u32) by (bit_vector);
}

/// The subscription set holds no bit but those of the monitored groups: each
/// bit that is set in it is the bit of a group.
pub proof fn law_only_groups_are_monitored(position: u32)
    requires
        position < 32,
        MONITORED_GROUPS & (1u32 << position) != 0,
    ensures
        exists|group: Group| group.mask() == 1u32 << position,
{
    assert(position < 12) by (bit_vector)
        requires
            position < 32,
            0xfffu32 & (1u32 << position) != 0,
    ;
    assert(1u32 << 0u32 == 0x001u32) by (bit_vector);
    assert(1u32 << 1u32 == 0x002u32) by (bit_vector);
    assert(1u32 << 2u32 == 0x004u32) by (bit_vector);
    assert(1u32 << 3u32 == 0x008u32) by (bit_vector);
    assert(1u32 << 4u32 == 0x010u32) by (bit_vector);
    assert(1u32 << 5u32 == 0x020u32) by (bit_vector);
    assert(1u32 << 6u32 == 0x040u32) by (bit_vector);
    assert(1u32 << 7u32 == 0x080u32) by (bit_vector);
    assert(1u32 << 8u32 == 0x100u32) by (bit_vector);
    assert(1u32 << 9u32 == 0x200u32) by (bit_vector);
    assert(1u32 << 10u32 == 0x400u32) by (bit_vector);
    assert(1u32 << 11u32 == 0x800u32) by (bit_vector);
    let group = if position == 0 {
        Group::Link
    } else if position == 1 {
        Group::Notify
    } else if position == 2 {
        Group::Neighbour
    } else if position == 3 {
        Group::TrafficControl
    } else if position == 4 {
        Group::Ipv4Address
    } else if position == 5 {
        Group::Ipv4MulticastRoute
    } else if position == 6 {
        Group::Ipv4Route
    } else if position == 7 {
        Group::Ipv4Rule
    } else if position == 8 {
        Group::Ipv6Address
    } else if position == 9 {
        Group::Ipv6MulticastRoute
    } else if position == 10 {
        Group::Ipv6Route
    } else {
        Group::Ipv6InterfaceInfo
    };
    assert(group.mask() == 1u32 << position);
}

} // verus!
