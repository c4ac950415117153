//! The data model: what the store knows of one network interface.

use crate::key::IfKey;
use vstd::prelude::*;

verus! {

/// `ipnet::Ipv4Net`, an IPv4 address with its prefix length. The store only
/// carries such values.
#[verifier::external_type_specification]
#[verifier::external_body]
pub struct ExIpv4Net(ipnet::Ipv4Net);

/// `ipnet::Ipv6Net`, an IPv6 address with its prefix length. The store only
/// carries such values.
#[verifier::external_type_specification]
#[verifier::external_body]
pub struct ExIpv6Net(ipnet::Ipv6Net);

/// `std::time::SystemTime`, a point in time. The store only carries such
/// values.
#[verifier::external_type_specification]
#[verifier::external_body]
pub struct ExSystemTime(std::time::SystemTime);

/// Index that the kernel has assigned to an interface.
#[derive(Clone, Copy, Debug, PartialEq, Eq, Structural, Hash)]
pub struct IfIndex(pub i32);

/// Name of an interface.
#[derive(Debug, PartialEq, Eq, Hash)]
pub struct IfName(pub String);

impl View for IfName {
    type V = Seq<char>;

    open spec fn view(&self) -> Seq<char> {
        self.0@
    }
}

impl Clone for IfName {
    fn clone(&self) -> (r: Self)
        ensures
            r@ == self@,
    {
        IfName(self.0.clone())
    }
}

/// Whether an interface is backed by a device or defined in software.
#[derive(Clone, Copy, Debug, PartialEq, Eq, Structural)]
pub enum IfRoleType {
    Physical,
    Virtual,
}

/// Link-layer encapsulation of an interface, as the kernel reports it.
#[derive(Clone, Copy, Debug, PartialEq, Eq, Structural)]
pub enum IfHardwareType {
    Unspec,
    NetRom,
    Ether,
    Eether,
    Ax25,
    ProNet,
    ChaosNet,
    Ieee802,
    ArcNet,
    Appletlk,
    Dlci,
    Atm,
    MetriCom,
    Ieee1394,
    Eui64,
    InfiniBand,
    Slip,
    Cslip,
    Slip6,
    Cslip6,
    Rsrvd,
    Adapt,
    Rose,
    X25,
    HwX25,
    Can,
    Mctp,
    Ppp,
    Cisco,
    Hdlc,
    Lapb,
    Ddcmp,
    RawHdlc,
    RawIp,
    Tunnel,
    Tunnel6,
    Frad,
    Skip,
    Loopback,
    Localtlk,
    Fddi,
    Bif,
    Sit,
    IpDdp,
    IpGre,
    PimReg,
    Hippi,
    Ash,
    EcoNet,
    Irda,
    FcPp,
    FcAl,
    FcPl,
    FcFabric,
    Ieee802Tr,
    Ieee80211,
    Ieee80211Prism,
    Ieee80211RadioTap,
    Ieee802154,
    Ieee802154Monitor,
    Phonet,
    PhonetPipe,
    Caif,
    Ip6Gre,
    Netlink,
    SixLoWpan,
    VsockMon,
    Void,
    ZeroHdrLen,
}

/// Kind of driver or virtual device behind an interface. It carries meaning
/// only for an interface whose role is `Virtual`.
#[derive(Clone, Copy, Debug, PartialEq, Eq, Structural)]
pub enum IfLinkType {
    Generic,
    BareUdp,
    BatAdv,
    Bond,
    Bridge,
    Dummy,
    Erspan,
    Fou,
    Geneve,
    Gre,
    GreTap,
    Ifb,
    Ip6Gre,
    Ip6GreTap,
    Ip6Tnl,
    IpIp,
    IpoIb,
    IpVlan,
    IpVtap,
    MacSec,
    MacVlan,
    MacVtap,
    NlMon,
    Sit,
    TunTap,
    Vcan,
    Veth,
    Vlan,
    Vrf,
    Vti,
    Vti6,
    VxCan,
    VxLan,
    WireGuard,
    Wlan,
    Xfrm,
}

/// Duplex mode of a link.
#[derive(Clone, Copy, Debug, PartialEq, Eq, Structural)]
pub enum IfDuplexType {
    Unknown,
    Auto,
    Half,
    Full,
}

/// Set of hardware attributes and offload features, one bit each.
#[derive(Clone, Copy, Debug, PartialEq, Eq, Structural)]
pub struct IfHardwareFlags {
    bits: u64,
}

impl IfHardwareFlags {
    /// Bit: negotiated speed is known.
    pub const SPEED: u64 = 0x1;

    /// Bit: duplex mode is known.
    pub const DUPLEX: u64 = 0x2;

    /// Bit: MTU is known.
    pub const MTU: u64 = 0x4;

    /// Bit: autonegotiation setting is known.
    pub const AUTONEG: u64 = 0x8;

    /// Bit: hardware address is known.
    pub const MAC_ADDR: u64 = 0x10;

    /// Bit: link supports broadcast.
    pub const BROADCAST: u64 = 0x20;

    /// Bit: transmit checksum offload.
    pub const OFFLOAD_TX_CSUM: u64 = 0x40;

    /// Bit: receive checksum offload.
    pub const OFFLOAD_RX_CSUM: u64 = 0x80;

    /// Bit: TCP segmentation offload.
    pub const OFFLOAD_TSO: u64 = 0x100;

    /// Bit: UDP fragmentation offload.
    pub const OFFLOAD_UFO: u64 = 0x200;

    /// Bit: generic segmentation offload.
    pub const OFFLOAD_GSO: u64 = 0x400;

    /// Bit: generic receive offload.
    pub const OFFLOAD_GRO: u64 = 0x800;

    /// Every bit that has a meaning.
    pub const ALL: u64 = 0xfff;

    /// The bits that are set, as a number.
    pub closed spec fn spec_bits(self) -> u64 {
        self.bits
    }

    /// Whether every bit of `other` is set in `self`.
    pub open spec fn has(self, other: IfHardwareFlags) -> bool {
        self.spec_bits() & other.spec_bits() == other.spec_bits()
    }

    /// No bit is set but those that have a meaning.
    #[verifier::type_invariant]
    spec fn within_all(self) -> bool {
        self.bits & Self::ALL == self.bits
    }

    /// The set with no bit.
    pub fn empty() -> (r: Self)
        ensures
            r.spec_bits() == 0,
    {
        let all: u64 = Self::ALL;
        assert(0u64 & all == 0u64) by (bit_vector);
        IfHardwareFlags { bits: 0 }
    }

    /// The bits that are set, as a number: none but those that have a
    /// meaning.
    pub fn bits(&self) -> (r: u64)
        ensures
            r == self.spec_bits(),
            r & Self::ALL == r,
    {
        proof {
            use_type_invariant(self);
        }
        self.bits
    }

    /// The set of those bits of `bits` that have a meaning; the others are
    /// dropped.
    pub fn from_bits_truncate(bits: u64) -> (r: Self)
        ensures
            r.spec_bits() == bits & Self::ALL,
    {
        let all: u64 = Self::ALL;
        assert((bits & all) & all == bits & all) by (bit_vector);
        IfHardwareFlags { bits: bits & Self::ALL }
    }

    /// Whether every bit of `other` is set in `self`.
    pub fn contains(&self, other: IfHardwareFlags) -> (r: bool)
        ensures
            r == self.has(other),
    {
        self.bits & other.bits == other.bits
    }

    /// Sets the bits of `other` where `value` holds, and clears them where it
    /// does not. The other bits stay.
    pub fn set(&mut self, other: IfHardwareFlags, value: bool)
        ensures
            final(self).spec_bits() == if value {
                old(self).spec_bits() | other.spec_bits()
            } else {
                old(self).spec_bits() & !other.spec_bits()
            },
    {
        proof {
            use_type_invariant(&*self);
            use_type_invariant(&other);
        }
        let all: u64 = Self::ALL;
        let a: u64 = self.bits;
        let b: u64 = other.bits;
        if value {
            assert((a | b) & all == a | b) by (bit_vector)
                requires
                    a & all == a,
                    b & all == b,
            ;
            self.bits = a | b;
        } else {
            assert((a & !b) & all == a & !b) by (bit_vector)
                requires
                    a & all == a,
            ;
            self.bits = a & !b;
        }
    }
}

/// Set of the protocols and behaviours that are switched on for a link, one
/// bit each.
#[derive(Clone, Copy, Debug, PartialEq, Eq, Structural)]
pub struct IfLinkFlags {
    bits: u64,
}

impl IfLinkFlags {
    pub const KEEPALIVE: u64 = 0x1;

    pub const LLDP: u64 = 0x2;

    pub const IP_ROUTING: u64 = 0x4;

    pub const ARP: u64 = 0x8;

    pub const CDP: u64 = 0x10;

    pub const MPLS: u64 = 0x20;

    pub const CLNS_ROUTING: u64 = 0x40;

    pub const DECNET_ROUTING: u64 = 0x80;

    pub const DEVICE_SENSOR: u64 = 0x100;

    pub const NAT64: u64 = 0x200;

    pub const NETBIOS: u64 = 0x400;

    pub const ONEP: u64 = 0x800;

    pub const ETHERNET_OAM: u64 = 0x1000;

    pub const LLC2: u64 = 0x2000;

    pub const LOOPBACK: u64 = 0x4000;

    pub const PPPOE: u64 = 0x8000;

    /// Every bit that has a meaning.
    pub const ALL: u64 = 0xffff;

    /// The bits that are set, as a number.
    pub closed spec fn spec_bits(self) -> u64 {
        self.bits
    }

    /// Whether every bit of `other` is set in `self`.
    pub open spec fn has(self, other: IfLinkFlags) -> bool {
        self.spec_bits() & other.spec_bits() == other.spec_bits()
    }

    /// No bit is set but those that have a meaning.
    #[verifier::type_invariant]
    spec fn within_all(self) -> bool {
        self.bits & Self::ALL == self.bits
    }

    /// The set with no bit.
    pub fn empty() -> (r: Self)
        ensures
            r.spec_bits() == 0,
    {
        let all: u64 = Self::ALL;
        assert(0u64 & all == 0u64) by (bit_vector);
        IfLinkFlags { bits: 0 }
    }

    /// The bits that are set, as a number: none but those that have a
    /// meaning.
    pub fn bits(&self) -> (r: u64)
        ensures
            r == self.spec_bits(),
            r & Self::ALL == r,
    {
        proof {
            use_type_invariant(self);
        }
        self.bits
    }

    /// The set of those bits of `bits` that have a meaning; the others are
    /// dropped.
    pub fn from_bits_truncate(bits: u64) -> (r: Self)
        ensures
            r.spec_bits() == bits & Self::ALL,
    {
        let all: u64 = Self::ALL;
        assert((bits & all) & all == bits & all) by (bit_vector);
        IfLinkFlags { bits: bits & Self::ALL }
    }

    /// Whether every bit of `other` is set in `self`.
    pub fn contains(&self, other: IfLinkFlags) -> (r: bool)
        ensures
            r == self.has(other),
    {
        self.bits & other.bits == other.bits
    }

    /// Sets the bits of `other` where `value` holds, and clears them where it
    /// does not. The other bits stay.
    pub fn set(&mut self, other: IfLinkFlags, value: bool)
        ensures
            final(self).spec_bits() == if value {
                old(self).spec_bits() | other.spec_bits()
            } else {
                old(self).spec_bits() & !other.spec_bits()
            },
    {
        proof {
            use_type_invariant(&*self);
            use_type_invariant(&other);
        }
        let all: u64 = Self::ALL;
        let a: u64 = self.bits;
        let b: u64 = other.bits;
        if value {
            assert((a | b) & all == a | b) by (bit_vector)
                requires
                    a & all == a,
                    b & all == b,
            ;
            self.bits = a | b;
        } else {
            assert((a & !b) & all == a & !b) by (bit_vector)
                requires
                    a & all == a,
            ;
            self.bits = a & !b;
        }
    }
}

/// What is known of an interface's hardware: which attributes the kernel has
/// reported (`flags`), and their values.
#[derive(Debug, PartialEq, Eq)]
pub struct IfHardwareSet {
    pub flags: IfHardwareFlags,
    pub speed_current: Option<u32>,
    pub speed_value_support: Vec<u32>,
    pub duplex: Option<IfDuplexType>,
    pub autoneg: Option<bool>,
    pub mtu: Option<u32>,
    pub mtu_min_size: Option<u32>,
    pub mtu_max_size: Option<u32>,
    pub mac_addr: Option<[u8; 6]>,
}

/// An `IfHardwareSet` as a mathematical value.
pub struct IfHardwareSetView {
    pub flags: IfHardwareFlags,
    pub speed_current: Option<u32>,
    pub speed_value_support: Seq<u32>,
    pub duplex: Option<IfDuplexType>,
    pub autoneg: Option<bool>,
    pub mtu: Option<u32>,
    pub mtu_min_size: Option<u32>,
    pub mtu_max_size: Option<u32>,
    pub mac_addr: Option<[u8; 6]>,
}

impl IfHardwareSetView {
    /// Whether bit `bit` of the flags is set.
    pub open spec fn flag(self, bit: u64) -> bool {
        self.flags.spec_bits() & bit == bit
    }

    /// The flags tell which attributes are known: each of the five bits under
    /// `IfHardwareSet::KNOWN` is set exactly when its attribute has a value.
    pub open spec fn consistent(self) -> bool {
        &&& self.flag(IfHardwareFlags::SPEED) == self.speed_current.is_some()
        &&& self.flag(IfHardwareFlags::DUPLEX) == self.duplex.is_some()
        &&& self.flag(IfHardwareFlags::MTU) == self.mtu.is_some()
        &&& self.flag(IfHardwareFlags::AUTONEG) == self.autoneg.is_some()
        &&& self.flag(IfHardwareFlags::MAC_ADDR) == self.mac_addr.is_some()
    }
}

impl View for IfHardwareSet {
    type V = IfHardwareSetView;

    open spec fn view(&self) -> IfHardwareSetView {
        IfHardwareSetView {
            flags: self.flags,
            speed_current: self.speed_current,
            speed_value_support: self.speed_value_support@,
            duplex: self.duplex,
            autoneg: self.autoneg,
            mtu: self.mtu,
            mtu_min_size: self.mtu_min_size,
            mtu_max_size: self.mtu_max_size,
            mac_addr: self.mac_addr,
        }
    }
}

impl Clone for IfHardwareSet {
    fn clone(&self) -> (r: Self)
        ensures
            r@ == self@,
    {
        let speeds = self.speed_value_support.clone();
        assert(speeds@ =~= self.speed_value_support@);
        IfHardwareSet {
            flags: self.flags,
            speed_current: self.speed_current,
            speed_value_support: speeds,
            duplex: self.duplex,
            autoneg: self.autoneg,
            mtu: self.mtu,
            mtu_min_size: self.mtu_min_size,
            mtu_max_size: self.mtu_max_size,
            mac_addr: self.mac_addr,
        }
    }
}

/// The bit `bit` where `on` holds, no bit where it does not.
fn bit_if(on: bool, bit: u64) -> (r: u64)
    ensures
        r == if on { bit } else { 0 },
{
    if on {
        bit
    } else {
        0
    }
}

impl IfHardwareSet {
    /// The five bits of the flags that say which attribute is known.
    pub const KNOWN: u64 = 0x1f;

    /// Builds the hardware state from the attribute values. Of `features`
    /// only the bits outside `KNOWN` are kept; the bits under `KNOWN` are
    /// set from the values: a bit is set exactly when its attribute is
    /// known.
    pub fn new(
        features: IfHardwareFlags,
        speed_current: Option<u32>,
        speed_value_support: Vec<u32>,
        duplex: Option<IfDuplexType>,
        autoneg: Option<bool>,
        mtu: Option<u32>,
        mtu_min_size: Option<u32>,
        mtu_max_size: Option<u32>,
        mac_addr: Option<[u8; 6]>,
    ) -> (r: Self)
        ensures
            r@.consistent(),
            r@.flags.spec_bits() & !Self::KNOWN == features.spec_bits() & !Self::KNOWN,
            r@.speed_current == speed_current,
            r@.speed_value_support == speed_value_support@,
            r@.duplex == duplex,
            r@.autoneg == autoneg,
            r@.mtu == mtu,
            r@.mtu_min_size == mtu_min_size,
            r@.mtu_max_size == mtu_max_size,
            r@.mac_addr == mac_addr,
    {
        let f: u64 = features.bits();
        let a: u64 = bit_if(speed_current.is_some(), IfHardwareFlags::SPEED);
        let b: u64 = bit_if(duplex.is_some(), IfHardwareFlags::DUPLEX);
        let c: u64 = bit_if(mtu.is_some(), IfHardwareFlags::MTU);
        let d: u64 = bit_if(autoneg.is_some(), IfHardwareFlags::AUTONEG);
        let e: u64 = bit_if(mac_addr.is_some(), IfHardwareFlags::MAC_ADDR);
        let bits: u64 = (f & !Self::KNOWN) | a | b | c | d | e;
        assert({
            &&& (bits & 0xfff) & !0x1fu64 == f & !0x1fu64
            &&& ((bits & 0xfff) & 0x1 == 0x1) == (a == 0x1)
            &&& ((bits & 0xfff) & 0x2 == 0x2) == (b == 0x2)
            &&& ((bits & 0xfff) & 0x4 == 0x4) == (c == 0x4)
            &&& ((bits & 0xfff) & 0x8 == 0x8) == (d == 0x8)
            &&& ((bits & 0xfff) & 0x10 == 0x10) == (e == 0x10)
        }) by (bit_vector)
            requires
                bits == (f & !0x1fu64) | a | b | c | d | e,
                f & 0xfff == f,
                a == 0 || a == 0x1,
                b == 0 || b == 0x2,
                c == 0 || c == 0x4,
                d == 0 || d == 0x8,
                e == 0 || e == 0x10,
        ;
        IfHardwareSet {
            flags: IfHardwareFlags::from_bits_truncate(bits),
            speed_current,
            speed_value_support,
            duplex,
            autoneg,
            mtu,
            mtu_min_size,
            mtu_max_size,
            mac_addr,
        }
    }
}

/// The protocols and behaviours that are switched on for a link, and the
/// keepalive interval where one is set.
#[derive(Clone, Copy, Debug, PartialEq, Eq)]
pub struct IfLinkSet {
    pub flags: IfLinkFlags,
    pub keepalive: Option<u32>,
}

/// The addresses assigned to an interface.
#[derive(Debug, PartialEq, Eq)]
pub struct IfAddrSet {
    pub ipv4: Vec<ipnet::Ipv4Net>,
    pub ipv6: Vec<ipnet::Ipv6Net>,
    pub mac_addr: Option<[u8; 6]>,
}

/// An `IfAddrSet` as a mathematical value.
pub struct IfAddrSetView {
    pub ipv4: Seq<ipnet::Ipv4Net>,
    pub ipv6: Seq<ipnet::Ipv6Net>,
    pub mac_addr: Option<[u8; 6]>,
}

impl View for IfAddrSet {
    type V = IfAddrSetView;

    open spec fn view(&self) -> IfAddrSetView {
        IfAddrSetView { ipv4: self.ipv4@, ipv6: self.ipv6@, mac_addr: self.mac_addr }
    }
}

impl Clone for IfAddrSet {
    fn clone(&self) -> (r: Self)
        ensures
            r@ == self@,
    {
        let mut ipv4: Vec<ipnet::Ipv4Net> = Vec::new();
        let mut i: usize = 0;
        while i < self.ipv4.len()
            invariant
                i <= self.ipv4.len(),
                ipv4@ == self.ipv4@.take(i as int),
            decreases self.ipv4.len() - i,
        {
            ipv4.push(self.ipv4[i]);
            i = i + 1;
        }
        let mut ipv6: Vec<ipnet::Ipv6Net> = Vec::new();
        let mut j: usize = 0;
        while j < self.ipv6.len()
            invariant
                j <= self.ipv6.len(),
                ipv6@ == self.ipv6@.take(j as int),
            decreases self.ipv6.len() - j,
        {
            ipv6.push(self.ipv6[j]);
            j = j + 1;
        }
        assert(self.ipv4@.take(i as int) =~= self.ipv4@);
        assert(self.ipv6@.take(j as int) =~= self.ipv6@);
        IfAddrSet { ipv4, ipv6, mac_addr: self.mac_addr }
    }
}

/// One network interface, as the store holds it.
#[derive(Debug, PartialEq)]
pub struct Interface {
    pub key: IfKey,
    pub name: IfName,
    pub ifindex: IfIndex,
    pub role: IfRoleType,
    pub hw_type: IfHardwareType,
    pub link_type: IfLinkType,
    pub addr: IfAddrSet,
    pub hw_set: IfHardwareSet,
    pub link_set: IfLinkSet,
    pub last_check: std::time::SystemTime,
    pub up: bool,
}

/// An `Interface` as a mathematical value.
pub struct InterfaceView {
    pub key: IfKey,
    pub name: Seq<char>,
    pub ifindex: i32,
    pub role: IfRoleType,
    pub hw_type: IfHardwareType,
    pub link_type: IfLinkType,
    pub addr: IfAddrSetView,
    pub hw_set: IfHardwareSetView,
    pub link_set: IfLinkSet,
    pub last_check: std::time::SystemTime,
    pub up: bool,
}

impl InterfaceView {
    /// The same interface under handle `key`.
    pub open spec fn with_key(self, key: IfKey) -> InterfaceView {
        InterfaceView { key, ..self }
    }

    /// The interface `self` after a fresh observation `seen` of it: handle
    /// and role stay as they are, everything else is taken from `seen`.
    pub open spec fn refreshed(self, seen: InterfaceView) -> InterfaceView {
        InterfaceView { key: self.key, role: self.role, ..seen }
    }

    /// The same interface with its last observation at `at`.
    pub open spec fn observed_at(self, at: std::time::SystemTime) -> InterfaceView {
        InterfaceView { last_check: at, ..self }
    }
}

impl View for Interface {
    type V = InterfaceView;

    open spec fn view(&self) -> InterfaceView {
        InterfaceView {
            key: self.key,
            name: self.name@,
            ifindex: self.ifindex.0,
            role: self.role,
            hw_type: self.hw_type,
            link_type: self.link_type,
            addr: self.addr@,
            hw_set: self.hw_set@,
            link_set: self.link_set,
            last_check: self.last_check,
            up: self.up,
        }
    }
}

impl Clone for Interface {
    fn clone(&self) -> (r: Self)
        ensures
            r@ == self@,
    {
        Interface {
            key: self.key,
            name: self.name.clone(),
            ifindex: self.ifindex,
            role: self.role,
            hw_type: self.hw_type,
            link_type: self.link_type,
            addr: self.addr.clone(),
            hw_set: self.hw_set.clone(),
            link_set: self.link_set,
            last_check: self.last_check,
            up: self.up,
        }
    }
}

impl Interface {
    /// The same interface under handle `key`.
    pub fn with_key(self, key: IfKey) -> (r: Interface)
        ensures
            r@ == self@.with_key(key),
    {
        Interface { key, ..self }
    }

    /// The interface `self` after a fresh observation `seen` of it: handle
    /// and role stay as they are, everything else is taken from `seen`.
    pub fn refreshed(&self, seen: Interface) -> (r: Interface)
        ensures
            r@ == self@.refreshed(seen@),
    {
        Interface { key: self.key, role: self.role, ..seen }
    }
}

} // verus!
