//! The protocol's enumerations: closed code sets and single-bit flag sets.

use vstd::prelude::*;

use crate::flags::FlagBit;

verus! {

/// An enumeration that names the type of an attribute, carried in 16 bits.
pub trait RtaType: Sized + Copy {
    /// The wire code of this member.
    spec fn spec_code(self) -> u16;

    /// The member with wire code `c`, if there is one.
    spec fn spec_from_code(c: u16) -> Option<Self>;

    /// Each member is found again from its code.
    proof fn lemma_code(self)
        ensures
            Self::spec_from_code(self.spec_code()) == Some(self),
    ;

    /// A member found from a code has that code.
    proof fn lemma_from_code(c: u16)
        ensures
            Self::spec_from_code(c) is Some ==> Self::spec_from_code(c)->Some_0.spec_code() == c,
    ;

    fn code(&self) -> (r: u16)
        ensures
            r == self.spec_code(),
    ;

    fn from_code(c: u16) -> (r: Option<Self>)
        ensures
            r == Self::spec_from_code(c),
    ;
}

/// Address family of a record.
#[derive(Debug, Clone, Copy, PartialEq, Eq, Structural)]
pub enum AddrFamily {
    Unspec,
    Unix,
    Inet,
    Inet6,
    Netlink,
    Packet,
}

impl AddrFamily {
    /// The wire code of this member.
    pub open spec fn spec_code(self) -> u8 {
        match self {
            AddrFamily::Unspec => 0,
            AddrFamily::Unix => 1,
            AddrFamily::Inet => 2,
            AddrFamily::Inet6 => 10,
            AddrFamily::Netlink => 16,
            AddrFamily::Packet => 17,
        }
    }

    /// The member with wire code `c`, if there is one.
    pub open spec fn spec_from_code(c: u8) -> Option<AddrFamily> {
        match c {
            0 => Some(AddrFamily::Unspec),
            1 => Some(AddrFamily::Unix),
            2 => Some(AddrFamily::Inet),
            10 => Some(AddrFamily::Inet6),
            16 => Some(AddrFamily::Netlink),
            17 => Some(AddrFamily::Packet),
            _ => None,
        }
    }

    /// Each member is found again from its code, and a member found from
    /// a code has that code.
    pub proof fn lemma_code(self, c: u8)
        ensures
            Self::spec_from_code(self.spec_code()) == Some(self),
            Self::spec_from_code(c) is Some ==> Self::spec_from_code(c)->Some_0.spec_code() == c,
    {
    }

    pub fn code(&self) -> (r: u8)
        ensures
            r == self.spec_code(),
    {
        match self {
            AddrFamily::Unspec => 0,
            AddrFamily::Unix => 1,
            AddrFamily::Inet => 2,
            AddrFamily::Inet6 => 10,
            AddrFamily::Netlink => 16,
            AddrFamily::Packet => 17,
        }
    }

    pub fn from_code(c: u8) -> (r: Option<AddrFamily>)
        ensures
            r == Self::spec_from_code(c),
    {
        match c {
            0 => Some(AddrFamily::Unspec),
            1 => Some(AddrFamily::Unix),
            2 => Some(AddrFamily::Inet),
            10 => Some(AddrFamily::Inet6),
            16 => Some(AddrFamily::Netlink),
            17 => Some(AddrFamily::Packet),
            _ => None,
        }
    }
}

/// Link-layer hardware type of an interface.
#[derive(Debug, Clone, Copy, PartialEq, Eq, Structural)]
pub enum Arphrd {
    Netrom,
    Ether,
    Eether,
    Ax25,
    Ieee802,
    Infiniband,
    Loopback,
    Sit,
    Ipgre,
    Void,
}

impl Arphrd {
    /// The wire code of this member.
    pub open spec fn spec_code(self) -> u16 {
        match self {
            Arphrd::Netrom => 0,
            Arphrd::Ether => 1,
            Arphrd::Eether => 2,
            Arphrd::Ax25 => 3,
            Arphrd::Ieee802 => 6,
            Arphrd::Infiniband => 32,
            Arphrd::Loopback => 0x304,
            Arphrd::Sit => 0x308,
            Arphrd::Ipgre => 0x30a,
            Arphrd::Void => 0xffff,
        }
    }

    /// The member with wire code `c`, if there is one.
    pub open spec fn spec_from_code(c: u16) -> Option<Arphrd> {
        match c {
            0 => Some(Arphrd::Netrom),
            1 => Some(Arphrd::Ether),
            2 => Some(Arphrd::Eether),
            3 => Some(Arphrd::Ax25),
            6 => Some(Arphrd::Ieee802),
            32 => Some(Arphrd::Infiniband),
            0x304 => Some(Arphrd::Loopback),
            0x308 => Some(Arphrd::Sit),
            0x30a => Some(Arphrd::Ipgre),
            0xffff => Some(Arphrd::Void),
            _ => None,
        }
    }

    /// Each member is found again from its code, and a member found from
    /// a code has that code.
    pub proof fn lemma_code(self, c: u16)
        ensures
            Self::spec_from_code(self.spec_code()) == Some(self),
            Self::spec_from_code(c) is Some ==> Self::spec_from_code(c)->Some_0.spec_code() == c,
    {
    }

    pub fn code(&self) -> (r: u16)
        ensures
            r == self.spec_code(),
    {
        match self {
            Arphrd::Netrom => 0,
            Arphrd::Ether => 1,
            Arphrd::Eether => 2,
            Arphrd::Ax25 => 3,
            Arphrd::Ieee802 => 6,
            Arphrd::Infiniband => 32,
            Arphrd::Loopback => 0x304,
            Arphrd::Sit => 0x308,
            Arphrd::Ipgre => 0x30a,
            Arphrd::Void => 0xffff,
        }
    }

    pub fn from_code(c: u16) -> (r: Option<Arphrd>)
        ensures
            r == Self::spec_from_code(c),
    {
        match c {
            0 => Some(Arphrd::Netrom),
            1 => Some(Arphrd::Ether),
            2 => Some(Arphrd::Eether),
            3 => Some(Arphrd::Ax25),
            6 => Some(Arphrd::Ieee802),
            32 => Some(Arphrd::Infiniband),
            0x304 => Some(Arphrd::Loopback),
            0x308 => Some(Arphrd::Sit),
            0x30a => Some(Arphrd::Ipgre),
            0xffff => Some(Arphrd::Void),
            _ => None,
        }
    }
}

/// Routing table identifier.
#[derive(Debug, Clone, Copy, PartialEq, Eq, Structural)]
pub enum RtTable {
    Unspec,
    Compat,
    Default,
    Main,
    Local,
}

impl RtTable {
    /// The wire code of this member.
    pub open spec fn spec_code(self) -> u8 {
        match self {
            RtTable::Unspec => 0,
            RtTable::Compat => 252,
            RtTable::Default => 253,
            RtTable::Main => 254,
            RtTable::Local => 255,
        }
    }

    /// The member with wire code `c`, if there is one.
    pub open spec fn spec_from_code(c: u8) -> Option<RtTable> {
        match c {
            0 => Some(RtTable::Unspec),
            252 => Some(RtTable::Compat),
            253 => Some(RtTable::Default),
            254 => Some(RtTable::Main),
            255 => Some(RtTable::Local),
            _ => None,
        }
    }

    /// Each member is found again from its code, and a member found from
    /// a code has that code.
    pub proof fn lemma_code(self, c: u8)
        ensures
            Self::spec_from_code(self.spec_code()) == Some(self),
            Self::spec_from_code(c) is Some ==> Self::spec_from_code(c)->Some_0.spec_code() == c,
    {
    }

    pub fn code(&self) -> (r: u8)
        ensures
            r == self.spec_code(),
    {
        match self {
            RtTable::Unspec => 0,
            RtTable::Compat => 252,
            RtTable::Default => 253,
            RtTable::Main => 254,
            RtTable::Local => 255,
        }
    }

    pub fn from_code(c: u8) -> (r: Option<RtTable>)
        ensures
            r == Self::spec_from_code(c),
    {
        match c {
            0 => Some(RtTable::Unspec),
            252 => Some(RtTable::Compat),
            253 => Some(RtTable::Default),
            254 => Some(RtTable::Main),
            255 => Some(RtTable::Local),
            _ => None,
        }
    }
}

/// Origin of a route.
#[derive(Debug, Clone, Copy, PartialEq, Eq, Structural)]
pub enum Rtprot {
    Unspec,
    Redirect,
    Kernel,
    Boot,
    Static,
    Dhcp,
}

impl Rtprot {
    /// The wire code of this member.
    pub open spec fn spec_code(self) -> u8 {
        match self {
            Rtprot::Unspec => 0,
            Rtprot::Redirect => 1,
            Rtprot::Kernel => 2,
            Rtprot::Boot => 3,
            Rtprot::Static => 4,
            Rtprot::Dhcp => 16,
        }
    }

    /// The member with wire code `c`, if there is one.
    pub open spec fn spec_from_code(c: u8) -> Option<Rtprot> {
        match c {
            0 => Some(Rtprot::Unspec),
            1 => Some(Rtprot::Redirect),
            2 => Some(Rtprot::Kernel),
            3 => Some(Rtprot::Boot),
            4 => Some(Rtprot::Static),
            16 => Some(Rtprot::Dhcp),
            _ => None,
        }
    }

    /// Each member is found again from its code, and a member found from
    /// a code has that code.
    pub proof fn lemma_code(self, c: u8)
        ensures
            Self::spec_from_code(self.spec_code()) == Some(self),
            Self::spec_from_code(c) is Some ==> Self::spec_from_code(c)->Some_0.spec_code() == c,
    {
    }

    pub fn code(&self) -> (r: u8)
        ensures
            r == self.spec_code(),
    {
        match self {
            Rtprot::Unspec => 0,
            Rtprot::Redirect => 1,
            Rtprot::Kernel => 2,
            Rtprot::Boot => 3,
            Rtprot::Static => 4,
            Rtprot::Dhcp => 16,
        }
    }

    pub fn from_code(c: u8) -> (r: Option<Rtprot>)
        ensures
            r == Self::spec_from_code(c),
    {
        match c {
            0 => Some(Rtprot::Unspec),
            1 => Some(Rtprot::Redirect),
            2 => Some(Rtprot::Kernel),
            3 => Some(Rtprot::Boot),
            4 => Some(Rtprot::Static),
            16 => Some(Rtprot::Dhcp),
            _ => None,
        }
    }
}

/// Distance to the destination of a route.
#[derive(Debug, Clone, Copy, PartialEq, Eq, Structural)]
pub enum RtScope {
    Universe,
    Site,
    Link,
    Host,
    Nowhere,
}

impl RtScope {
    /// The wire code of this member.
    pub open spec fn spec_code(self) -> u8 {
        match self {
            RtScope::Universe => 0,
            RtScope::Site => 200,
            RtScope::Link => 253,
            RtScope::Host => 254,
            RtScope::Nowhere => 255,
        }
    }

    /// The member with wire code `c`, if there is one.
    pub open spec fn spec_from_code(c: u8) -> Option<RtScope> {
        match c {
            0 => Some(RtScope::Universe),
            200 => Some(RtScope::Site),
            253 => Some(RtScope::Link),
            254 => Some(RtScope::Host),
            255 => Some(RtScope::Nowhere),
            _ => None,
        }
    }

    /// Each member is found again from its code, and a member found from
    /// a code has that code.
    pub proof fn lemma_code(self, c: u8)
        ensures
            Self::spec_from_code(self.spec_code()) == Some(self),
            Self::spec_from_code(c) is Some ==> Self::spec_from_code(c)->Some_0.spec_code() == c,
    {
    }

    pub fn code(&self) -> (r: u8)
        ensures
            r == self.spec_code(),
    {
        match self {
            RtScope::Universe => 0,
            RtScope::Site => 200,
            RtScope::Link => 253,
            RtScope::Host => 254,
            RtScope::Nowhere => 255,
        }
    }

    pub fn from_code(c: u8) -> (r: Option<RtScope>)
        ensures
            r == Self::spec_from_code(c),
    {
        match c {
            0 => Some(RtScope::Universe),
            200 => Some(RtScope::Site),
            253 => Some(RtScope::Link),
            254 => Some(RtScope::Host),
            255 => Some(RtScope::Nowhere),
            _ => None,
        }
    }
}

/// Kind of a route or neighbour entry.
#[derive(Debug, Clone, Copy, PartialEq, Eq, Structural)]
pub enum Rtn {
    Unspec,
    Unicast,
    Local,
    Broadcast,
    Anycast,
    Multicast,
    Blackhole,
    Unreachable,
    Prohibit,
    Throw,
    Nat,
    Xresolve,
}

impl Rtn {
    /// The wire code of this member.
    pub open spec fn spec_code(self) -> u8 {
        match self {
            Rtn::Unspec => 0,
            Rtn::Unicast => 1,
            Rtn::Local => 2,
            Rtn::Broadcast => 3,
            Rtn::Anycast => 4,
            Rtn::Multicast => 5,
            Rtn::Blackhole => 6,
            Rtn::Unreachable => 7,
            Rtn::Prohibit => 8,
            Rtn::Throw => 9,
            Rtn::Nat => 10,
            Rtn::Xresolve => 11,
        }
    }

    /// The member with wire code `c`, if there is one.
    pub open spec fn spec_from_code(c: u8) -> Option<Rtn> {
        match c {
            0 => Some(Rtn::Unspec),
            1 => Some(Rtn::Unicast),
            2 => Some(Rtn::Local),
            3 => Some(Rtn::Broadcast),
            4 => Some(Rtn::Anycast),
            5 => Some(Rtn::Multicast),
            6 => Some(Rtn::Blackhole),
            7 => Some(Rtn::Unreachable),
            8 => Some(Rtn::Prohibit),
            9 => Some(Rtn::Throw),
            10 => Some(Rtn::Nat),
            11 => Some(Rtn::Xresolve),
            _ => None,
        }
    }

    /// Each member is found again from its code, and a member found from
    /// a code has that code.
    pub proof fn lemma_code(self, c: u8)
        ensures
            Self::spec_from_code(self.spec_code()) == Some(self),
            Self::spec_from_code(c) is Some ==> Self::spec_from_code(c)->Some_0.spec_code() == c,
    {
    }

    pub fn code(&self) -> (r: u8)
        ensures
            r == self.spec_code(),
    {
        match self {
            Rtn::Unspec => 0,
            Rtn::Unicast => 1,
            Rtn::Local => 2,
            Rtn::Broadcast => 3,
            Rtn::Anycast => 4,
            Rtn::Multicast => 5,
            Rtn::Blackhole => 6,
            Rtn::Unreachable => 7,
            Rtn::Prohibit => 8,
            Rtn::Throw => 9,
            Rtn::Nat => 10,
            Rtn::Xresolve => 11,
        }
    }

    pub fn from_code(c: u8) -> (r: Option<Rtn>)
        ensures
            r == Self::spec_from_code(c),
    {
        match c {
            0 => Some(Rtn::Unspec),
            1 => Some(Rtn::Unicast),
            2 => Some(Rtn::Local),
            3 => Some(Rtn::Broadcast),
            4 => Some(Rtn::Anycast),
            5 => Some(Rtn::Multicast),
            6 => Some(Rtn::Blackhole),
            7 => Some(Rtn::Unreachable),
            8 => Some(Rtn::Prohibit),
            9 => Some(Rtn::Throw),
            10 => Some(Rtn::Nat),
            11 => Some(Rtn::Xresolve),
            _ => None,
        }
    }
}

/// Attribute types of interface records.
#[derive(Debug, Clone, Copy, PartialEq, Eq, Structural)]
pub enum Ifla {
    Unspec,
    Address,
    Broadcast,
    Ifname,
    Mtu,
    Link,
    Qdisc,
    Stats,
}

impl RtaType for Ifla {
    open spec fn spec_code(self) -> u16 {
        match self {
            Ifla::Unspec => 0,
            Ifla::Address => 1,
            Ifla::Broadcast => 2,
            Ifla::Ifname => 3,
            Ifla::Mtu => 4,
            Ifla::Link => 5,
            Ifla::Qdisc => 6,
            Ifla::Stats => 7,
        }
    }

    open spec fn spec_from_code(c: u16) -> Option<Ifla> {
        match c {
            0 => Some(Ifla::Unspec),
            1 => Some(Ifla::Address),
            2 => Some(Ifla::Broadcast),
            3 => Some(Ifla::Ifname),
            4 => Some(Ifla::Mtu),
            5 => Some(Ifla::Link),
            6 => Some(Ifla::Qdisc),
            7 => Some(Ifla::Stats),
            _ => None,
        }
    }

    proof fn lemma_code(self) {
    }

    proof fn lemma_from_code(c: u16) {
    }

    fn code(&self) -> (r: u16) {
        match self {
            Ifla::Unspec => 0,
            Ifla::Address => 1,
            Ifla::Broadcast => 2,
            Ifla::Ifname => 3,
            Ifla::Mtu => 4,
            Ifla::Link => 5,
            Ifla::Qdisc => 6,
            Ifla::Stats => 7,
        }
    }

    fn from_code(c: u16) -> (r: Option<Ifla>) {
        match c {
            0 => Some(Ifla::Unspec),
            1 => Some(Ifla::Address),
            2 => Some(Ifla::Broadcast),
            3 => Some(Ifla::Ifname),
            4 => Some(Ifla::Mtu),
            5 => Some(Ifla::Link),
            6 => Some(Ifla::Qdisc),
            7 => Some(Ifla::Stats),
            _ => None,
        }
    }
}

/// Attribute types of address records.
#[derive(Debug, Clone, Copy, PartialEq, Eq, Structural)]
pub enum Ifa {
    Unspec,
    Address,
    Local,
    Label,
    Broadcast,
    Anycast,
    Cacheinfo,
}

impl RtaType for Ifa {
    open spec fn spec_code(self) -> u16 {
        match self {
            Ifa::Unspec => 0,
            Ifa::Address => 1,
            Ifa::Local => 2,
            Ifa::Label => 3,
            Ifa::Broadcast => 4,
            Ifa::Anycast => 5,
            Ifa::Cacheinfo => 6,
        }
    }

    open spec fn spec_from_code(c: u16) -> Option<Ifa> {
        match c {
            0 => Some(Ifa::Unspec),
            1 => Some(Ifa::Address),
            2 => Some(Ifa::Local),
            3 => Some(Ifa::Label),
            4 => Some(Ifa::Broadcast),
            5 => Some(Ifa::Anycast),
            6 => Some(Ifa::Cacheinfo),
            _ => None,
        }
    }

    proof fn lemma_code(self) {
    }

    proof fn lemma_from_code(c: u16) {
    }

    fn code(&self) -> (r: u16) {
        match self {
            Ifa::Unspec => 0,
            Ifa::Address => 1,
            Ifa::Local => 2,
            Ifa::Label => 3,
            Ifa::Broadcast => 4,
            Ifa::Anycast => 5,
            Ifa::Cacheinfo => 6,
        }
    }

    fn from_code(c: u16) -> (r: Option<Ifa>) {
        match c {
            0 => Some(Ifa::Unspec),
            1 => Some(Ifa::Address),
            2 => Some(Ifa::Local),
            3 => Some(Ifa::Label),
            4 => Some(Ifa::Broadcast),
            5 => Some(Ifa::Anycast),
            6 => Some(Ifa::Cacheinfo),
            _ => None,
        }
    }
}

/// Attribute types of route records.
#[derive(Debug, Clone, Copy, PartialEq, Eq, Structural)]
pub enum Rta {
    Unspec,
    Dst,
    Src,
    Iif,
    Oif,
    Gateway,
    Priority,
    Prefsrc,
    Metrics,
    Multipath,
    Table,
}

impl RtaType for Rta {
    open spec fn spec_code(self) -> u16 {
        match self {
            Rta::Unspec => 0,
            Rta::Dst => 1,
            Rta::Src => 2,
            Rta::Iif => 3,
            Rta::Oif => 4,
            Rta::Gateway => 5,
            Rta::Priority => 6,
            Rta::Prefsrc => 7,
            Rta::Metrics => 8,
            Rta::Multipath => 9,
            Rta::Table => 15,
        }
    }

    open spec fn spec_from_code(c: u16) -> Option<Rta> {
        match c {
            0 => Some(Rta::Unspec),
            1 => Some(Rta::Dst),
            2 => Some(Rta::Src),
            3 => Some(Rta::Iif),
            4 => Some(Rta::Oif),
            5 => Some(Rta::Gateway),
            6 => Some(Rta::Priority),
            7 => Some(Rta::Prefsrc),
            8 => Some(Rta::Metrics),
            9 => Some(Rta::Multipath),
            15 => Some(Rta::Table),
            _ => None,
        }
    }

    proof fn lemma_code(self) {
    }

    proof fn lemma_from_code(c: u16) {
    }

    fn code(&self) -> (r: u16) {
        match self {
            Rta::Unspec => 0,
            Rta::Dst => 1,
            Rta::Src => 2,
            Rta::Iif => 3,
            Rta::Oif => 4,
            Rta::Gateway => 5,
            Rta::Priority => 6,
            Rta::Prefsrc => 7,
            Rta::Metrics => 8,
            Rta::Multipath => 9,
            Rta::Table => 15,
        }
    }

    fn from_code(c: u16) -> (r: Option<Rta>) {
        match c {
            0 => Some(Rta::Unspec),
            1 => Some(Rta::Dst),
            2 => Some(Rta::Src),
            3 => Some(Rta::Iif),
            4 => Some(Rta::Oif),
            5 => Some(Rta::Gateway),
            6 => Some(Rta::Priority),
            7 => Some(Rta::Prefsrc),
            8 => Some(Rta::Metrics),
            9 => Some(Rta::Multipath),
            15 => Some(Rta::Table),
            _ => None,
        }
    }
}

/// Attribute types of neighbour records.
#[derive(Debug, Clone, Copy, PartialEq, Eq, Structural)]
pub enum Nda {
    Unspec,
    Dst,
    Lladdr,
    Cacheinfo,
    Probes,
}

impl RtaType for Nda {
    open spec fn spec_code(self) -> u16 {
        match self {
            Nda::Unspec => 0,
            Nda::Dst => 1,
            Nda::Lladdr => 2,
            Nda::Cacheinfo => 3,
            Nda::Probes => 4,
        }
    }

    open spec fn spec_from_code(c: u16) -> Option<Nda> {
        match c {
            0 => Some(Nda::Unspec),
            1 => Some(Nda::Dst),
            2 => Some(Nda::Lladdr),
            3 => Some(Nda::Cacheinfo),
            4 => Some(Nda::Probes),
            _ => None,
        }
    }

    proof fn lemma_code(self) {
    }

    proof fn lemma_from_code(c: u16) {
    }

    fn code(&self) -> (r: u16) {
        match self {
            Nda::Unspec => 0,
            Nda::Dst => 1,
            Nda::Lladdr => 2,
            Nda::Cacheinfo => 3,
            Nda::Probes => 4,
        }
    }

    fn from_code(c: u16) -> (r: Option<Nda>) {
        match c {
            0 => Some(Nda::Unspec),
            1 => Some(Nda::Dst),
            2 => Some(Nda::Lladdr),
            3 => Some(Nda::Cacheinfo),
            4 => Some(Nda::Probes),
            _ => None,
        }
    }
}

/// Interface flags, carried in 32 bits.
#[derive(Debug, Clone, Copy, PartialEq, Eq, Structural)]
pub enum Iff {
    Up,
    Broadcast,
    Debug,
    Loopback,
    Pointopoint,
    Notrailers,
    Running,
    Noarp,
    Promisc,
    Allmulti,
    Master,
    Slave,
    Multicast,
    Portsel,
    Automedia,
    Dynamic,
    LowerUp,
    Dormant,
    Echo,
}

impl FlagBit for Iff {
    open spec fn spec_index(self) -> u32 {
        match self {
            Iff::Up => 0,
            Iff::Broadcast => 1,
            Iff::Debug => 2,
            Iff::Loopback => 3,
            Iff::Pointopoint => 4,
            Iff::Notrailers => 5,
            Iff::Running => 6,
            Iff::Noarp => 7,
            Iff::Promisc => 8,
            Iff::Allmulti => 9,
            Iff::Master => 10,
            Iff::Slave => 11,
            Iff::Multicast => 12,
            Iff::Portsel => 13,
            Iff::Automedia => 14,
            Iff::Dynamic => 15,
            Iff::LowerUp => 16,
            Iff::Dormant => 17,
            Iff::Echo => 18,
        }
    }

    open spec fn spec_width() -> u32 {
        32
    }

    open spec fn spec_of_index(i: u32) -> Option<Iff> {
        match i {
            0 => Some(Iff::Up),
            1 => Some(Iff::Broadcast),
            2 => Some(Iff::Debug),
            3 => Some(Iff::Loopback),
            4 => Some(Iff::Pointopoint),
            5 => Some(Iff::Notrailers),
            6 => Some(Iff::Running),
            7 => Some(Iff::Noarp),
            8 => Some(Iff::Promisc),
            9 => Some(Iff::Allmulti),
            10 => Some(Iff::Master),
            11 => Some(Iff::Slave),
            12 => Some(Iff::Multicast),
            13 => Some(Iff::Portsel),
            14 => Some(Iff::Automedia),
            15 => Some(Iff::Dynamic),
            16 => Some(Iff::LowerUp),
            17 => Some(Iff::Dormant),
            18 => Some(Iff::Echo),
            _ => None,
        }
    }

    proof fn lemma_index(self) {
    }

    proof fn lemma_of_index(i: u32) {
    }

    fn index(&self) -> (r: u32) {
        match self {
            Iff::Up => 0,
            Iff::Broadcast => 1,
            Iff::Debug => 2,
            Iff::Loopback => 3,
            Iff::Pointopoint => 4,
            Iff::Notrailers => 5,
            Iff::Running => 6,
            Iff::Noarp => 7,
            Iff::Promisc => 8,
            Iff::Allmulti => 9,
            Iff::Master => 10,
            Iff::Slave => 11,
            Iff::Multicast => 12,
            Iff::Portsel => 13,
            Iff::Automedia => 14,
            Iff::Dynamic => 15,
            Iff::LowerUp => 16,
            Iff::Dormant => 17,
            Iff::Echo => 18,
        }
    }

    fn of_index(i: u32) -> (r: Option<Iff>) {
        match i {
            0 => Some(Iff::Up),
            1 => Some(Iff::Broadcast),
            2 => Some(Iff::Debug),
            3 => Some(Iff::Loopback),
            4 => Some(Iff::Pointopoint),
            5 => Some(Iff::Notrailers),
            6 => Some(Iff::Running),
            7 => Some(Iff::Noarp),
            8 => Some(Iff::Promisc),
            9 => Some(Iff::Allmulti),
            10 => Some(Iff::Master),
            11 => Some(Iff::Slave),
            12 => Some(Iff::Multicast),
            13 => Some(Iff::Portsel),
            14 => Some(Iff::Automedia),
            15 => Some(Iff::Dynamic),
            16 => Some(Iff::LowerUp),
            17 => Some(Iff::Dormant),
            18 => Some(Iff::Echo),
            _ => None,
        }
    }

    fn width() -> (r: u32) {
        32
    }
}

/// Interface address flags, carried in 8 bits.
#[derive(Debug, Clone, Copy, PartialEq, Eq, Structural)]
pub enum IfaF {
    Secondary,
    Nodad,
    Optimistic,
    Dadfailed,
    Homeaddress,
    Deprecated,
    Tentative,
    Permanent,
}

impl FlagBit for IfaF {
    open spec fn spec_index(self) -> u32 {
        match self {
            IfaF::Secondary => 0,
            IfaF::Nodad => 1,
            IfaF::Optimistic => 2,
            IfaF::Dadfailed => 3,
            IfaF::Homeaddress => 4,
            IfaF::Deprecated => 5,
            IfaF::Tentative => 6,
            IfaF::Permanent => 7,
        }
    }

    open spec fn spec_width() -> u32 {
        8
    }

    open spec fn spec_of_index(i: u32) -> Option<IfaF> {
        match i {
            0 => Some(IfaF::Secondary),
            1 => Some(IfaF::Nodad),
            2 => Some(IfaF::Optimistic),
            3 => Some(IfaF::Dadfailed),
            4 => Some(IfaF::Homeaddress),
            5 => Some(IfaF::Deprecated),
            6 => Some(IfaF::Tentative),
            7 => Some(IfaF::Permanent),
            _ => None,
        }
    }

    proof fn lemma_index(self) {
    }

    proof fn lemma_of_index(i: u32) {
    }

    fn index(&self) -> (r: u32) {
        match self {
            IfaF::Secondary => 0,
            IfaF::Nodad => 1,
            IfaF::Optimistic => 2,
            IfaF::Dadfailed => 3,
            IfaF::Homeaddress => 4,
            IfaF::Deprecated => 5,
            IfaF::Tentative => 6,
            IfaF::Permanent => 7,
        }
    }

    fn of_index(i: u32) -> (r: Option<IfaF>) {
        match i {
            0 => Some(IfaF::Secondary),
            1 => Some(IfaF::Nodad),
            2 => Some(IfaF::Optimistic),
            3 => Some(IfaF::Dadfailed),
            4 => Some(IfaF::Homeaddress),
            5 => Some(IfaF::Deprecated),
            6 => Some(IfaF::Tentative),
            7 => Some(IfaF::Permanent),
            _ => None,
        }
    }

    fn width() -> (r: u32) {
        8
    }
}

/// Route flags, carried in 32 bits.
#[derive(Debug, Clone, Copy, PartialEq, Eq, Structural)]
pub enum RtmF {
    Notify,
    Cloned,
    Equalize,
    Prefix,
    LookupTable,
    FibMatch,
}

impl FlagBit for RtmF {
    open spec fn spec_index(self) -> u32 {
        match self {
            RtmF::Notify => 8,
            RtmF::Cloned => 9,
            RtmF::Equalize => 10,
            RtmF::Prefix => 11,
            RtmF::LookupTable => 12,
            RtmF::FibMatch => 13,
        }
    }

    open spec fn spec_width() -> u32 {
        32
    }

    open spec fn spec_of_index(i: u32) -> Option<RtmF> {
        match i {
            8 => Some(RtmF::Notify),
            9 => Some(RtmF::Cloned),
            10 => Some(RtmF::Equalize),
            11 => Some(RtmF::Prefix),
            12 => Some(RtmF::LookupTable),
            13 => Some(RtmF::FibMatch),
            _ => None,
        }
    }

    proof fn lemma_index(self) {
    }

    proof fn lemma_of_index(i: u32) {
    }

    fn index(&self) -> (r: u32) {
        match self {
            RtmF::Notify => 8,
            RtmF::Cloned => 9,
            RtmF::Equalize => 10,
            RtmF::Prefix => 11,
            RtmF::LookupTable => 12,
            RtmF::FibMatch => 13,
        }
    }

    fn of_index(i: u32) -> (r: Option<RtmF>) {
        match i {
            8 => Some(RtmF::Notify),
            9 => Some(RtmF::Cloned),
            10 => Some(RtmF::Equalize),
            11 => Some(RtmF::Prefix),
            12 => Some(RtmF::LookupTable),
            13 => Some(RtmF::FibMatch),
            _ => None,
        }
    }

    fn width() -> (r: u32) {
        32
    }
}

/// Neighbour states, carried in 16 bits.
#[derive(Debug, Clone, Copy, PartialEq, Eq, Structural)]
pub enum Nud {
    Incomplete,
    Reachable,
    Stale,
    Delay,
    Probe,
    Failed,
    Noarp,
    Permanent,
}

impl FlagBit for Nud {
    open spec fn spec_index(self) -> u32 {
        match self {
            Nud::Incomplete => 0,
            Nud::Reachable => 1,
            Nud::Stale => 2,
            Nud::Delay => 3,
            Nud::Probe => 4,
            Nud::Failed => 5,
            Nud::Noarp => 6,
            Nud::Permanent => 7,
        }
    }

    open spec fn spec_width() -> u32 {
        16
    }

    open spec fn spec_of_index(i: u32) -> Option<Nud> {
        match i {
            0 => Some(Nud::Incomplete),
            1 => Some(Nud::Reachable),
            2 => Some(Nud::Stale),
            3 => Some(Nud::Delay),
            4 => Some(Nud::Probe),
            5 => Some(Nud::Failed),
            6 => Some(Nud::Noarp),
            7 => Some(Nud::Permanent),
            _ => None,
        }
    }

    proof fn lemma_index(self) {
    }

    proof fn lemma_of_index(i: u32) {
    }

    fn index(&self) -> (r: u32) {
        match self {
            Nud::Incomplete => 0,
            Nud::Reachable => 1,
            Nud::Stale => 2,
            Nud::Delay => 3,
            Nud::Probe => 4,
            Nud::Failed => 5,
            Nud::Noarp => 6,
            Nud::Permanent => 7,
        }
    }

    fn of_index(i: u32) -> (r: Option<Nud>) {
        match i {
            0 => Some(Nud::Incomplete),
            1 => Some(Nud::Reachable),
            2 => Some(Nud::Stale),
            3 => Some(Nud::Delay),
            4 => Some(Nud::Probe),
            5 => Some(Nud::Failed),
            6 => Some(Nud::Noarp),
            7 => Some(Nud::Permanent),
            _ => None,
        }
    }

    fn width() -> (r: u32) {
        16
    }
}

/// Neighbour flags, carried in 8 bits.
#[derive(Debug, Clone, Copy, PartialEq, Eq, Structural)]
pub enum Ntf {
    Use,
    SelfEntry,
    Master,
    Proxy,
    ExtLearned,
    Offloaded,
    Router,
}

impl FlagBit for Ntf {
    open spec fn spec_index(self) -> u32 {
        match self {
            Ntf::Use => 0,
            Ntf::SelfEntry => 1,
            Ntf::Master => 2,
            Ntf::Proxy => 3,
            Ntf::ExtLearned => 4,
            Ntf::Offloaded => 5,
            Ntf::Router => 7,
        }
    }

    open spec fn spec_width() -> u32 {
        8
    }

    open spec fn spec_of_index(i: u32) -> Option<Ntf> {
        match i {
            0 => Some(Ntf::Use),
            1 => Some(Ntf::SelfEntry),
            2 => Some(Ntf::Master),
            3 => Some(Ntf::Proxy),
            4 => Some(Ntf::ExtLearned),
            5 => Some(Ntf::Offloaded),
            7 => Some(Ntf::Router),
            _ => None,
        }
    }

    proof fn lemma_index(self) {
    }

    proof fn lemma_of_index(i: u32) {
    }

    fn index(&self) -> (r: u32) {
        match self {
            Ntf::Use => 0,
            Ntf::SelfEntry => 1,
            Ntf::Master => 2,
            Ntf::Proxy => 3,
            Ntf::ExtLearned => 4,
            Ntf::Offloaded => 5,
            Ntf::Router => 7,
        }
    }

    fn of_index(i: u32) -> (r: Option<Ntf>) {
        match i {
            0 => Some(Ntf::Use),
            1 => Some(Ntf::SelfEntry),
            2 => Some(Ntf::Master),
            3 => Some(Ntf::Proxy),
            4 => Some(Ntf::ExtLearned),
            5 => Some(Ntf::Offloaded),
            7 => Some(Ntf::Router),
            _ => None,
        }
    }

    fn width() -> (r: u32) {
        8
    }
}

} // verus!
