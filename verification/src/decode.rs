//! From the raw values of the management protocol to the rows of a kernel
//! table.

use crate::common::{
    IfHardwareFlags, IfHardwareSet, IfHardwareType, IfLinkFlags, IfLinkSet, IfLinkType,
};
use crate::control::{IfAddr, IfAddrRecord, IfControlError, IfLinkRecord, IfLinkRecordView};
use vstd::prelude::*;

verus! {

/// The kernel's code (`ARPHRD_*`) for a link-layer encapsulation. `Unspec`
/// alone has none; `Cisco` and `Hdlc` share one.
pub open spec fn arphrd_of(t: IfHardwareType) -> Option<u16> {
    match t {
        IfHardwareType::Unspec => None,
        IfHardwareType::NetRom => Some(0),
        IfHardwareType::Ether => Some(1),
        IfHardwareType::Eether => Some(2),
        IfHardwareType::Ax25 => Some(3),
        IfHardwareType::ProNet => Some(4),
        IfHardwareType::ChaosNet => Some(5),
        IfHardwareType::Ieee802 => Some(6),
        IfHardwareType::ArcNet => Some(7),
        IfHardwareType::Appletlk => Some(8),
        IfHardwareType::Dlci => Some(15),
        IfHardwareType::Atm => Some(19),
        IfHardwareType::MetriCom => Some(23),
        IfHardwareType::Ieee1394 => Some(24),
        IfHardwareType::Eui64 => Some(27),
        IfHardwareType::InfiniBand => Some(32),
        IfHardwareType::Slip => Some(256),
        IfHardwareType::Cslip => Some(257),
        IfHardwareType::Slip6 => Some(258),
        IfHardwareType::Cslip6 => Some(259),
        IfHardwareType::Rsrvd => Some(260),
        IfHardwareType::Adapt => Some(264),
        IfHardwareType::Rose => Some(270),
        IfHardwareType::X25 => Some(271),
        IfHardwareType::HwX25 => Some(272),
        IfHardwareType::Can => Some(280),
        IfHardwareType::Mctp => Some(290),
        IfHardwareType::Ppp => Some(512),
        IfHardwareType::Cisco => Some(513),
        IfHardwareType::Hdlc => Some(513),
        IfHardwareType::Lapb => Some(516),
        IfHardwareType::Ddcmp => Some(517),
        IfHardwareType::RawHdlc => Some(518),
        IfHardwareType::RawIp => Some(519),
        IfHardwareType::Tunnel => Some(768),
        IfHardwareType::Tunnel6 => Some(769),
        IfHardwareType::Frad => Some(770),
        IfHardwareType::Skip => Some(771),
        IfHardwareType::Loopback => Some(772),
        IfHardwareType::Localtlk => Some(773),
        IfHardwareType::Fddi => Some(774),
        IfHardwareType::Bif => Some(775),
        IfHardwareType::Sit => Some(776),
        IfHardwareType::IpDdp => Some(777),
        IfHardwareType::IpGre => Some(778),
        IfHardwareType::PimReg => Some(779),
        IfHardwareType::Hippi => Some(780),
        IfHardwareType::Ash => Some(781),
        IfHardwareType::EcoNet => Some(782),
        IfHardwareType::Irda => Some(783),
        IfHardwareType::FcPp => Some(784),
        IfHardwareType::FcAl => Some(785),
        IfHardwareType::FcPl => Some(786),
        IfHardwareType::FcFabric => Some(787),
        IfHardwareType::Ieee802Tr => Some(800),
        IfHardwareType::Ieee80211 => Some(801),
        IfHardwareType::Ieee80211Prism => Some(802),
        IfHardwareType::Ieee80211RadioTap => Some(803),
        IfHardwareType::Ieee802154 => Some(804),
        IfHardwareType::Ieee802154Monitor => Some(805),
        IfHardwareType::Phonet => Some(820),
        IfHardwareType::PhonetPipe => Some(821),
        IfHardwareType::Caif => Some(822),
        IfHardwareType::Ip6Gre => Some(823),
        IfHardwareType::Netlink => Some(824),
        IfHardwareType::SixLoWpan => Some(825),
        IfHardwareType::VsockMon => Some(826),
        IfHardwareType::Void => Some(65535),
        IfHardwareType::ZeroHdrLen => Some(65534),
    }
}

/// `t` is the encapsulation that stands for the kernel's code `code`: the one
/// with that code (`Cisco` where there are two), or `Unspec` where there is
/// none.
pub open spec fn stands_for(t: IfHardwareType, code: u16) -> bool {
    &&& t != IfHardwareType::Hdlc
    &&& arphrd_of(t) is Some ==> arphrd_of(t) == Some(code)
    &&& arphrd_of(t) is None ==> forall|o: IfHardwareType| arphrd_of(o) != Some(code)
}

/// The link-layer encapsulation that stands for the kernel's code `code`.
pub fn hardware_type(code: u16) -> (t: IfHardwareType)
    ensures
        stands_for(t, code),
{
    match code {
        0 => IfHardwareType::NetRom,
        1 => IfHardwareType::Ether,
        2 => IfHardwareType::Eether,
        3 => IfHardwareType::Ax25,
        4 => IfHardwareType::ProNet,
        5 => IfHardwareType::ChaosNet,
        6 => IfHardwareType::Ieee802,
        7 => IfHardwareType::ArcNet,
        8 => IfHardwareType::Appletlk,
        15 => IfHardwareType::Dlci,
        19 => IfHardwareType::Atm,
        23 => IfHardwareType::MetriCom,
        24 => IfHardwareType::Ieee1394,
        27 => IfHardwareType::Eui64,
        32 => IfHardwareType::InfiniBand,
        256 => IfHardwareType::Slip,
        257 => IfHardwareType::Cslip,
        258 => IfHardwareType::Slip6,
        259 => IfHardwareType::Cslip6,
        260 => IfHardwareType::Rsrvd,
        264 => IfHardwareType::Adapt,
        270 => IfHardwareType::Rose,
        271 => IfHardwareType::X25,
        272 => IfHardwareType::HwX25,
        280 => IfHardwareType::Can,
        290 => IfHardwareType::Mctp,
        512 => IfHardwareType::Ppp,
        513 => IfHardwareType::Cisco,
        516 => IfHardwareType::Lapb,
        517 => IfHardwareType::Ddcmp,
        518 => IfHardwareType::RawHdlc,
        519 => IfHardwareType::RawIp,
        768 => IfHardwareType::Tunnel,
        769 => IfHardwareType::Tunnel6,
        770 => IfHardwareType::Frad,
        771 => IfHardwareType::Skip,
        772 => IfHardwareType::Loopback,
        773 => IfHardwareType::Localtlk,
        774 => IfHardwareType::Fddi,
        775 => IfHardwareType::Bif,
        776 => IfHardwareType::Sit,
        777 => IfHardwareType::IpDdp,
        778 => IfHardwareType::IpGre,
        779 => IfHardwareType::PimReg,
        780 => IfHardwareType::Hippi,
        781 => IfHardwareType::Ash,
        782 => IfHardwareType::EcoNet,
        783 => IfHardwareType::Irda,
        784 => IfHardwareType::FcPp,
        785 => IfHardwareType::FcAl,
        786 => IfHardwareType::FcPl,
        787 => IfHardwareType::FcFabric,
        800 => IfHardwareType::Ieee802Tr,
        801 => IfHardwareType::Ieee80211,
        802 => IfHardwareType::Ieee80211Prism,
        803 => IfHardwareType::Ieee80211RadioTap,
        804 => IfHardwareType::Ieee802154,
        805 => IfHardwareType::Ieee802154Monitor,
        820 => IfHardwareType::Phonet,
        821 => IfHardwareType::PhonetPipe,
        822 => IfHardwareType::Caif,
        823 => IfHardwareType::Ip6Gre,
        824 => IfHardwareType::Netlink,
        825 => IfHardwareType::SixLoWpan,
        826 => IfHardwareType::VsockMon,
        65535 => IfHardwareType::Void,
        65534 => IfHardwareType::ZeroHdrLen,
        _ => IfHardwareType::Unspec,
    }
}

/// Flag of a link that is administratively up.
pub const IFF_UP: u32 = 0x1;

/// Flag of a link that can broadcast.
pub const IFF_BROADCAST: u32 = 0x2;

/// Flag of a loopback link.
pub const IFF_LOOPBACK: u32 = 0x8;

/// Flag of a link that does not resolve addresses.
pub const IFF_NOARP: u32 = 0x80;

/// One interface as the management protocol reports it, before any of it is
/// interpreted.
#[derive(Debug, PartialEq, Eq)]
pub struct IfRawLink {
    pub index: u32,
    pub link_layer_type: u16,
    pub flags: u32,
    pub name: Option<String>,
    pub kind: Option<IfLinkType>,
    pub mtu: Option<u32>,
    pub min_mtu: Option<u32>,
    pub max_mtu: Option<u32>,
    pub address: Option<Vec<u8>>,
}

/// A hardware address of six bytes as a MAC address; any other length gives
/// none.
pub fn mac_of(address: &Option<Vec<u8>>) -> (r: Option<[u8; 6]>)
    ensures
        r is Some <==> address is Some && address->0@.len() == 6,
        r is Some ==> r->0@ == address->0@,
{
    match address {
        Some(bytes) => {
            if bytes.len() == 6 {
                let mac: [u8; 6] = [bytes[0], bytes[1], bytes[2], bytes[3], bytes[4], bytes[5]];
                assert(mac@ =~= bytes@);
                Some(mac)
            } else {
                None
            }
        },
        None => None,
    }
}

/// Whether bit `bit` is set in `flags`.
pub open spec fn flag_set(flags: u32, bit: u32) -> bool {
    flags & bit == bit
}

/// Why `raw` is no row of a kernel table, if it is none: its index does not
/// fit a kernel index, or it has no name, or an empty one.
pub open spec fn raw_link_fault(raw: IfRawLink) -> bool {
    ||| raw.index > i32::MAX
    ||| raw.name is None
    ||| raw.name->0@.len() == 0
}

/// `row` is the row that `raw` stands for: see `decode_link`.
pub open spec fn decodes(raw: IfRawLink, row: IfLinkRecordView) -> bool {
    &&& !raw_link_fault(raw)
    &&& row.ifindex == raw.index
    &&& row.name == raw.name->0@
    &&& row.kind == raw.kind
    &&& stands_for(row.hw_type, raw.link_layer_type)
    &&& row.up == flag_set(raw.flags, IFF_UP)
    &&& row.hw_set.consistent()
    &&& row.hw_set.speed_current is None
    &&& row.hw_set.speed_value_support.len() == 0
    &&& row.hw_set.duplex is None
    &&& row.hw_set.autoneg is None
    &&& row.hw_set.mtu == raw.mtu
    &&& row.hw_set.mtu_min_size == raw.min_mtu
    &&& row.hw_set.mtu_max_size == raw.max_mtu
    &&& row.hw_set.mac_addr is Some <==> raw.address is Some && raw.address->0@.len() == 6
    &&& row.hw_set.mac_addr is Some ==> row.hw_set.mac_addr->0@ == raw.address->0@
    &&& row.hw_set.flags.spec_bits() & !IfHardwareSet::KNOWN == if flag_set(
        raw.flags,
        IFF_BROADCAST,
    ) {
        IfHardwareFlags::BROADCAST
    } else {
        0
    }
    &&& row.link_set.keepalive is None
    &&& row.link_set.flags.spec_bits() == (if flag_set(raw.flags, IFF_LOOPBACK) {
        IfLinkFlags::LOOPBACK
    } else {
        0
    }) | (if flag_set(raw.flags, IFF_NOARP) {
        0
    } else {
        IfLinkFlags::ARP
    })
}

/// The row of the kernel's interface table that `raw` stands for.
///
/// Fails with `Invalid` where the index does not fit a kernel index or the
/// name is missing or empty. Otherwise the row has the index, the name and
/// the kind of `raw`, and the encapsulation that stands for its code. It is
/// up where `IFF_UP` is set. Its hardware state knows the MTU values that
/// `raw` has and, where the address has six bytes, the MAC address;
/// `BROADCAST` is set where `IFF_BROADCAST` is. Of the link flags,
/// `LOOPBACK` is set where `IFF_LOOPBACK` is, and `ARP` where `IFF_NOARP`
/// is not.
pub fn decode_link(raw: IfRawLink) -> (r: Result<IfLinkRecord, IfControlError>)
    ensures
        match r {
            Ok(row) => decodes(raw, row@),
            Err(IfControlError::Invalid(m)) => raw_link_fault(raw) && m@ == BAD_LINK@,
            Err(_) => false,
        },
{
    if raw.index > 0x7fff_ffff {
        return Err(IfControlError::Invalid(BAD_LINK.to_owned()));
    }
    let name = match raw.name {
        Some(name) => name,
        None => {
            return Err(IfControlError::Invalid(BAD_LINK.to_owned()));
        },
    };
    if name.as_str().is_empty() {
        return Err(IfControlError::Invalid(BAD_LINK.to_owned()));
    }
    let flags: u32 = raw.flags;
    let mut features = IfHardwareFlags::empty();
    features.set(
        IfHardwareFlags::from_bits_truncate(IfHardwareFlags::BROADCAST),
        flags & IFF_BROADCAST == IFF_BROADCAST,
    );
    let mut link_flags = IfLinkFlags::empty();
    link_flags.set(
        IfLinkFlags::from_bits_truncate(IfLinkFlags::LOOPBACK),
        flags & IFF_LOOPBACK == IFF_LOOPBACK,
    );
    link_flags.set(
        IfLinkFlags::from_bits_truncate(IfLinkFlags::ARP),
        flags & IFF_NOARP != IFF_NOARP,
    );
    let hw_set = IfHardwareSet::new(
        features,
        None,
        Vec::new(),
        None,
        None,
        raw.mtu,
        raw.min_mtu,
        raw.max_mtu,
        mac_of(&raw.address),
    );
    proof {
        let f = features.spec_bits();
        let h = hw_set@.flags.spec_bits();
        let on = flag_set(flags, IFF_BROADCAST);
        assert(f == if on { 0x20u64 } else { 0u64 }) by (bit_vector)
            requires
                on ==> f == 0u64 | (0x20u64 & 0xfff),
                !on ==> f == 0u64 & !(0x20u64 & 0xfff),
        ;
        assert(h & !0x1fu64 == f) by (bit_vector)
            requires
                h & !0x1fu64 == f & !0x1fu64,
                f == 0 || f == 0x20,
        ;
        let l = link_flags.spec_bits();
        let a = if flag_set(flags, IFF_LOOPBACK) {
            0x4000u64
        } else {
            0u64
        };
        let b = if flag_set(flags, IFF_NOARP) {
            0u64
        } else {
            0x8u64
        };
        assert(l == a | b) by (bit_vector)
            requires
                a == 0 || a == 0x4000,
                b == 0 || b == 0x8,
                a == 0x4000 ==> b == 0x8 ==> l == (0u64 | (0x4000u64 & 0xffff)) | (0x8u64
                    & 0xffff),
                a == 0x4000 ==> b == 0 ==> l == (0u64 | (0x4000u64 & 0xffff)) & !(0x8u64
                    & 0xffff),
                a == 0 ==> b == 0x8 ==> l == (0u64 & !(0x4000u64 & 0xffff)) | (0x8u64 & 0xffff),
                a == 0 ==> b == 0 ==> l == (0u64 & !(0x4000u64 & 0xffff)) & !(0x8u64 & 0xffff),
        ;
    }
    Ok(
        IfLinkRecord {
            ifindex: raw.index as i32,
            name,
            hw_type: hardware_type(raw.link_layer_type),
            kind: raw.kind,
            hw_set,
            link_set: IfLinkSet { flags: link_flags, keepalive: None },
            up: flags & IFF_UP == IFF_UP,
        },
    )
}

/// Message of the error for an interface row without a usable index or name.
pub const BAD_LINK: &'static str = "interface row lacks a usable index or name";

/// Message of the error for an address row without a usable index.
pub const BAD_ADDR: &'static str = "address row lacks a usable index";

/// The row of the kernel's address table for `addr` on the interface with
/// index `index`. Fails with `Invalid` where the index does not fit a kernel
/// index.
pub fn decode_addr(index: u32, addr: IfAddr) -> (r: Result<IfAddrRecord, IfControlError>)
    ensures
        match r {
            Ok(row) => index <= i32::MAX && row.ifindex == index && row.addr == addr,
            Err(IfControlError::Invalid(m)) => index > i32::MAX && m@ == BAD_ADDR@,
            Err(_) => false,
        },
{
    if index > 0x7fff_ffff {
        return Err(IfControlError::Invalid(BAD_ADDR.to_owned()));
    }
    Ok(IfAddrRecord { ifindex: index as i32, addr })
}

} // verus!
