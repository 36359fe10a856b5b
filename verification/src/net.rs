//! Addresses, ports and multicast groups of PTP over UDP/IPv4.

use vstd::prelude::*;
use vstd::string::StringExecFns;

use crate::packet::PacketMeta;
use crate::text::{append_decimal, decimal, decimal_is_a_numeral, is_numeral};

verus! {

/// UDP port of event messages.
pub const EVENT_PORT: u16 = 319;

/// UDP port of general messages.
pub const GENERAL_PORT: u16 = 320;

/// An IPv4 address, as its four octets.
#[derive(Clone, Copy, Debug, PartialEq, Eq, Structural)]
pub struct Ipv4Addr {
    /// First octet.
    pub a: u8,
    /// Second octet.
    pub b: u8,
    /// Third octet.
    pub c: u8,
    /// Fourth octet.
    pub d: u8,
}

impl Ipv4Addr {
    /// The address in dotted decimal.
    pub open spec fn dotted(self) -> Seq<char> {
        decimal(self.a as nat) + "."@ + decimal(self.b as nat) + "."@ + decimal(self.c as nat)
            + "."@ + decimal(self.d as nat)
    }

    /// Appends the address in dotted decimal.
    pub fn append_to(self, text: &mut String)
        ensures
            final(text)@ == old(text)@ + self.dotted(),
    {
        append_decimal(text, self.a as u16);
        text.append(".");
        append_decimal(text, self.b as u16);
        text.append(".");
        append_decimal(text, self.c as u16);
        text.append(".");
        append_decimal(text, self.d as u16);
        assert(text@ =~= old(text)@ + self.dotted());
    }
}

/// A multicast group of PTP.
#[derive(Clone, Copy, Debug, PartialEq, Eq, Structural)]
pub enum Group {
    /// Group of all messages but those of the peer delay mechanism.
    Primary,
    /// Group of messages that stay on the link.
    LinkLocal,
}

impl Group {
    /// The group's address.
    pub open spec fn spec_address(self) -> Ipv4Addr {
        match self {
            Group::Primary => Ipv4Addr { a: 224, b: 0, c: 1, d: 129 },
            Group::LinkLocal => Ipv4Addr { a: 224, b: 0, c: 0, d: 107 },
        }
    }

    /// The group's address.
    pub fn address(self) -> (r: Ipv4Addr)
        ensures
            r == self.spec_address(),
    {
        match self {
            Group::Primary => Ipv4Addr { a: 224, b: 0, c: 1, d: 129 },
            Group::LinkLocal => Ipv4Addr { a: 224, b: 0, c: 0, d: 107 },
        }
    }
}

/// An IPv4 address with a UDP port.
#[derive(Clone, Copy, Debug, PartialEq, Eq, Structural)]
pub struct SocketAddr {
    /// Address.
    pub address: Ipv4Addr,
    /// UDP port.
    pub port: u16,
}

/// Where a UDP packet goes and what travels with it.
#[derive(Clone, Copy, Debug, PartialEq, Eq)]
pub struct UdpMetadata {
    /// Destination.
    pub remote_addr: SocketAddr,
    /// Source address, if not the interface's own choice.
    pub local_addr: Option<Ipv4Addr>,
    /// Packet metadata.
    pub meta: PacketMeta,
}

/// The endpoint of a message: the link-local group for messages that stay on the
/// link, the primary group for all others.
pub open spec fn spec_multicast_endpoint(port: u16, link_local: bool) -> SocketAddr {
    let group = if link_local {
        Group::LinkLocal
    } else {
        Group::Primary
    };
    SocketAddr { address: group.spec_address(), port }
}

/// The multicast endpoint to which messages for `port` are sent.
pub fn multicast_endpoint(port: u16, link_local: bool) -> (r: SocketAddr)
    ensures
        r == spec_multicast_endpoint(port, link_local),
{
    let group = if link_local { Group::LinkLocal } else { Group::Primary };
    SocketAddr { address: group.address(), port }
}

/// The primary group of PTP is 224.0.1.129 and the link-local one is 224.0.0.107.
pub proof fn groups_have_the_addresses_of_ptp(group: Group, r: Ipv4Addr)
    requires
        call_ensures(Group::address, (group,), r),
    ensures
        r.a == 224 && r.b == 0,
        group is Primary ==> r.c == 1 && r.d == 129,
        group is LinkLocal ==> r.c == 0 && r.d == 107,
{
}

/// A message for `port` goes to that port of 224.0.0.107 if it stays on the link, and of
/// 224.0.1.129 if not.
pub proof fn endpoints_follow_the_scope(port: u16, link_local: bool, r: SocketAddr)
    requires
        call_ensures(multicast_endpoint, (port, link_local), r),
    ensures
        r.port == port,
        r.address.a == 224 && r.address.b == 0,
        link_local ==> r.address.c == 0 && r.address.d == 107,
        !link_local ==> r.address.c == 1 && r.address.d == 129,
{
}

/// Appending an address keeps the text before it and adds the four octets as decimal
/// numbers, with dots between them.
pub proof fn addresses_are_four_numbers_with_dots(address: Ipv4Addr, text: &mut String)
    requires
        call_ensures(Ipv4Addr::append_to, (address, text), ()),
    ensures
        exists|a: Seq<char>, b: Seq<char>, c: Seq<char>, d: Seq<char>|
            {
                &&& #[trigger] is_numeral(a, address.a as int)
                &&& #[trigger] is_numeral(b, address.b as int)
                &&& #[trigger] is_numeral(c, address.c as int)
                &&& #[trigger] is_numeral(d, address.d as int)
                &&& final(text)@ == old(text)@ + (a + seq!['.'] + b + seq!['.'] + c + seq!['.'] + d)
            },
{
    reveal_strlit(".");
    assert("."@ =~= seq!['.']);
    decimal_is_a_numeral(address.a as nat);
    decimal_is_a_numeral(address.b as nat);
    decimal_is_a_numeral(address.c as nat);
    decimal_is_a_numeral(address.d as nat);
}

} // verus!
