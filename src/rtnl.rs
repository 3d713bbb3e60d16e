//! The fixed records of the protocol and the attribute envelope.

use vstd::prelude::*;

use crate::buffer::{
    i32_at,
    i32_bytes,
    lemma_i32_round_trip,
    lemma_u16_round_trip,
    lemma_u32_round_trip,
    u16_at,
    u16_bytes,
    u32_at,
    u32_bytes,
    DeError,
    ReadBuffer,
    SerError,
    WriteBuffer,
};
use crate::consts::{AddrFamily, Arphrd, IfaF, Iff, Ntf, Nud, RtScope, RtTable, RtaType, RtmF, Rtn, Rtprot};
use crate::flags::{decode_flags, encode_flags, flags_of, lemma_flags_round_trip, lemma_mask_fits, mask_of, FlagBit};
use crate::nl::{has_bytes, truncated, Nl};

verus! {

/// The change mask of an interface record: every flag may change.
pub const IFI_CHANGE_ALL: u32 = 0xffff_ffff;

/// Interface information record.
pub struct Ifinfomsg {
    /// Interface address family
    pub ifi_family: AddrFamily,
    /// Interface type
    pub ifi_type: Arphrd,
    /// Interface index
    pub ifi_index: libc::c_int,
    /// Interface flags
    pub ifi_flags: Vec<Iff>,
    /// Which flags the record changes; the wire always carries all ones
    pub ifi_change: libc::c_uint,
}

/// What an interface record holds.
pub struct IfinfomsgView {
    pub family: AddrFamily,
    pub link_type: Arphrd,
    pub index: i32,
    pub flags: Seq<Iff>,
    pub change: u32,
}

impl View for Ifinfomsg {
    type V = IfinfomsgView;

    open spec fn view(&self) -> IfinfomsgView {
        IfinfomsgView {
            family: self.ifi_family,
            link_type: self.ifi_type,
            index: self.ifi_index,
            flags: self.ifi_flags@,
            change: self.ifi_change,
        }
    }
}

impl Ifinfomsg {
    /// An interface record whose change mask lets every flag change.
    pub fn new(
        ifi_family: AddrFamily,
        ifi_type: Arphrd,
        ifi_index: libc::c_int,
        ifi_flags: Vec<Iff>,
    ) -> (r: Self)
        ensures
            r@ == (IfinfomsgView {
                family: ifi_family,
                link_type: ifi_type,
                index: ifi_index,
                flags: ifi_flags@,
                change: IFI_CHANGE_ALL,
            }),
    {
        Ifinfomsg { ifi_family, ifi_type, ifi_index, ifi_flags, ifi_change: IFI_CHANGE_ALL }
    }
}

impl Nl for Ifinfomsg {
    open spec fn spec_wire(v: IfinfomsgView) -> Seq<u8> {
        seq![v.family.spec_code()] + u16_bytes(v.link_type.spec_code()) + i32_bytes(v.index)
            + u32_bytes(mask_of(v.flags)) + u32_bytes(IFI_CHANGE_ALL)
    }

    open spec fn spec_parse(d: Seq<u8>, p: int) -> Result<(IfinfomsgView, int), DeError> {
        if !has_bytes(d, p, 15) {
            Err(truncated(p, 15))
        } else if AddrFamily::spec_from_code(d[p]) is None {
            Err(DeError::UnknownCode { offset: p as usize, code: d[p] as u32 })
        } else if Arphrd::spec_from_code(u16_at(d, p + 1)) is None {
            Err(DeError::UnknownCode { offset: (p + 1) as usize, code: u16_at(d, p + 1) as u32 })
        } else {
            Ok(
                (
                    IfinfomsgView {
                        family: AddrFamily::spec_from_code(d[p])->Some_0,
                        link_type: Arphrd::spec_from_code(u16_at(d, p + 1))->Some_0,
                        index: i32_at(d, p + 3),
                        flags: flags_of::<Iff>(u32_at(d, p + 7)),
                        change: IFI_CHANGE_ALL,
                    },
                    p + 15,
                ),
            )
        }
    }

    open spec fn spec_same(a: IfinfomsgView, b: IfinfomsgView) -> bool {
        &&& a.family == b.family
        &&& a.link_type == b.link_type
        &&& a.index == b.index
        &&& a.flags.to_set() == b.flags.to_set()
    }

    proof fn lemma_round_trip(v: IfinfomsgView, d: Seq<u8>, p: int) {
        let w = Self::spec_wire(v);
        let s = d.subrange(p, p + 15);
        assert(forall|k: int| 0 <= k < 15 ==> d[p + k] == #[trigger] s[k]);
        v.family.lemma_code(0);
        v.link_type.lemma_code(0);
        lemma_u16_round_trip(v.link_type.spec_code());
        lemma_u32_round_trip(v.index as u32);
        lemma_i32_round_trip(v.index);
        lemma_u32_round_trip(mask_of(v.flags));
        lemma_flags_round_trip(v.flags);
        assert(d[p] == s[0] && d[p + 1] == s[1] && d[p + 2] == s[2]);
        assert(d[p + 3] == s[3] && d[p + 4] == s[4] && d[p + 5] == s[5] && d[p + 6] == s[6]);
        assert(d[p + 7] == s[7] && d[p + 8] == s[8] && d[p + 9] == s[9] && d[p + 10] == s[10]);
    }

    fn size(&self) -> (r: usize) {
        1 + 2 + 4 + 4 + 4
    }

    fn serialize(&self, buf: &mut WriteBuffer) -> (r: Result<(), SerError>) {
        match buf.reserve(15) {
            Err(e) => Err(e),
            Ok(()) => {
                buf.put_u8(self.ifi_family.code());
                buf.put_u16(self.ifi_type.code());
                buf.put_i32(self.ifi_index);
                buf.put_u32(encode_flags(&self.ifi_flags));
                buf.put_u32(IFI_CHANGE_ALL);
                assert(buf.bytes() =~= old(buf).bytes() + Self::spec_wire(self@));
                Ok(())
            },
        }
    }

    fn deserialize(buf: &mut ReadBuffer) -> (r: Result<Self, DeError>) {
        match buf.require(15) {
            Err(e) => {
                return Err(e);
            },
            Ok(()) => {},
        }
        let start = buf.position();
        let family = buf.get_u8();
        let link_type = buf.get_u16();
        let ifi_index = buf.get_i32();
        let flags = buf.get_u32();
        let _change = buf.get_u32();
        let ifi_family = match AddrFamily::from_code(family) {
            Some(f) => f,
            None => {
                buf.rewind(start);
                return Err(DeError::UnknownCode { offset: start, code: family as u32 });
            },
        };
        let ifi_type = match Arphrd::from_code(link_type) {
            Some(t) => t,
            None => {
                buf.rewind(start);
                return Err(DeError::UnknownCode { offset: start + 1, code: link_type as u32 });
            },
        };
        Ok(
            Ifinfomsg {
                ifi_family,
                ifi_type,
                ifi_index,
                ifi_flags: decode_flags::<Iff>(flags),
                ifi_change: IFI_CHANGE_ALL,
            },
        )
    }
}

} // verus!

verus! {

/// Interface address record.
pub struct Ifaddrmsg {
    /// Interface address family
    pub ifa_family: AddrFamily,
    /// Interface address prefix length
    pub ifa_prefixlen: libc::c_uchar,
    /// Interface address flags
    pub ifa_flags: Vec<IfaF>,
    /// Interface address scope
    pub ifa_scope: libc::c_uchar,
    /// Interface address index
    pub ifa_index: libc::c_int,
}

/// What an interface address record holds.
pub struct IfaddrmsgView {
    pub family: AddrFamily,
    pub prefixlen: u8,
    pub flags: Seq<IfaF>,
    pub scope: u8,
    pub index: i32,
}

impl View for Ifaddrmsg {
    type V = IfaddrmsgView;

    open spec fn view(&self) -> IfaddrmsgView {
        IfaddrmsgView {
            family: self.ifa_family,
            prefixlen: self.ifa_prefixlen,
            flags: self.ifa_flags@,
            scope: self.ifa_scope,
            index: self.ifa_index,
        }
    }
}

proof fn lemma_u8_mask<F: FlagBit>(s: Seq<F>)
    requires
        F::spec_width() == 8,
    ensures
        ((mask_of(s) as u8) as u32) == mask_of(s),
{
    lemma_mask_fits(s);
    let m = mask_of(s);
    assert(m < (1u32 << 8u32) ==> (m as u8) as u32 == m) by (bit_vector);
}

proof fn lemma_u16_mask<F: FlagBit>(s: Seq<F>)
    requires
        F::spec_width() == 16,
    ensures
        ((mask_of(s) as u16) as u32) == mask_of(s),
{
    lemma_mask_fits(s);
    let m = mask_of(s);
    assert(m < (1u32 << 16u32) ==> (m as u16) as u32 == m) by (bit_vector);
}

impl Nl for Ifaddrmsg {
    open spec fn spec_wire(v: IfaddrmsgView) -> Seq<u8> {
        seq![v.family.spec_code(), v.prefixlen, mask_of(v.flags) as u8, v.scope] + i32_bytes(
            v.index,
        )
    }

    open spec fn spec_parse(d: Seq<u8>, p: int) -> Result<(IfaddrmsgView, int), DeError> {
        if !has_bytes(d, p, 8) {
            Err(truncated(p, 8))
        } else if AddrFamily::spec_from_code(d[p]) is None {
            Err(DeError::UnknownCode { offset: p as usize, code: d[p] as u32 })
        } else {
            Ok(
                (
                    IfaddrmsgView {
                        family: AddrFamily::spec_from_code(d[p])->Some_0,
                        prefixlen: d[p + 1],
                        flags: flags_of::<IfaF>(d[p + 2] as u32),
                        scope: d[p + 3],
                        index: i32_at(d, p + 4),
                    },
                    p + 8,
                ),
            )
        }
    }

    open spec fn spec_same(a: IfaddrmsgView, b: IfaddrmsgView) -> bool {
        &&& a.family == b.family
        &&& a.prefixlen == b.prefixlen
        &&& a.flags.to_set() == b.flags.to_set()
        &&& a.scope == b.scope
        &&& a.index == b.index
    }

    proof fn lemma_round_trip(v: IfaddrmsgView, d: Seq<u8>, p: int) {
        let s = d.subrange(p, p + 8);
        assert(forall|k: int| 0 <= k < 8 ==> d[p + k] == #[trigger] s[k]);
        v.family.lemma_code(0);
        lemma_u8_mask(v.flags);
        lemma_flags_round_trip(v.flags);
        lemma_u32_round_trip(v.index as u32);
        lemma_i32_round_trip(v.index);
        assert(d[p] == s[0] && d[p + 1] == s[1] && d[p + 2] == s[2] && d[p + 3] == s[3]);
        assert(d[p + 4] == s[4] && d[p + 5] == s[5] && d[p + 6] == s[6] && d[p + 7] == s[7]);
    }

    fn size(&self) -> (r: usize) {
        1 + 1 + 1 + 1 + 4
    }

    fn serialize(&self, buf: &mut WriteBuffer) -> (r: Result<(), SerError>) {
        match buf.reserve(8) {
            Err(e) => Err(e),
            Ok(()) => {
                buf.put_u8(self.ifa_family.code());
                buf.put_u8(self.ifa_prefixlen);
                buf.put_u8(encode_flags(&self.ifa_flags) as u8);
                buf.put_u8(self.ifa_scope);
                buf.put_i32(self.ifa_index);
                assert(buf.bytes() =~= old(buf).bytes() + Self::spec_wire(self@));
                Ok(())
            },
        }
    }

    fn deserialize(buf: &mut ReadBuffer) -> (r: Result<Self, DeError>) {
        match buf.require(8) {
            Err(e) => {
                return Err(e);
            },
            Ok(()) => {},
        }
        let start = buf.position();
        let family = buf.get_u8();
        let ifa_prefixlen = buf.get_u8();
        let flags = buf.get_u8();
        let ifa_scope = buf.get_u8();
        let ifa_index = buf.get_i32();
        let ifa_family = match AddrFamily::from_code(family) {
            Some(f) => f,
            None => {
                buf.rewind(start);
                return Err(DeError::UnknownCode { offset: start, code: family as u32 });
            },
        };
        Ok(
            Ifaddrmsg {
                ifa_family,
                ifa_prefixlen,
                ifa_flags: decode_flags::<IfaF>(flags as u32),
                ifa_scope,
                ifa_index,
            },
        )
    }
}

/// Route record.
pub struct Rtmsg {
    /// Address family of route
    pub rtm_family: libc::c_uchar,
    /// Length of destination
    pub rtm_dst_len: libc::c_uchar,
    /// Length of source
    pub rtm_src_len: libc::c_uchar,
    /// TOS filter
    pub rtm_tos: libc::c_uchar,
    /// Routing table ID
    pub rtm_table: RtTable,
    /// Routing protocol
    pub rtm_protocol: Rtprot,
    /// Routing scope
    pub rtm_scope: RtScope,
    /// Routing type
    pub rtm_type: Rtn,
    /// Routing flags
    pub rtm_flags: Vec<RtmF>,
}

/// What a route record holds.
pub struct RtmsgView {
    pub family: u8,
    pub dst_len: u8,
    pub src_len: u8,
    pub tos: u8,
    pub table: RtTable,
    pub protocol: Rtprot,
    pub scope: RtScope,
    pub rtype: Rtn,
    pub flags: Seq<RtmF>,
}

impl View for Rtmsg {
    type V = RtmsgView;

    open spec fn view(&self) -> RtmsgView {
        RtmsgView {
            family: self.rtm_family,
            dst_len: self.rtm_dst_len,
            src_len: self.rtm_src_len,
            tos: self.rtm_tos,
            table: self.rtm_table,
            protocol: self.rtm_protocol,
            scope: self.rtm_scope,
            rtype: self.rtm_type,
            flags: self.rtm_flags@,
        }
    }
}

/// The error for the code `c` at `p`, which its enumeration lacks.
pub open spec fn unknown_code(p: int, c: u32) -> DeError {
    DeError::UnknownCode { offset: p as usize, code: c }
}

impl Nl for Rtmsg {
    open spec fn spec_wire(v: RtmsgView) -> Seq<u8> {
        seq![
            v.family,
            v.dst_len,
            v.src_len,
            v.tos,
            v.table.spec_code(),
            v.protocol.spec_code(),
            v.scope.spec_code(),
            v.rtype.spec_code(),
        ] + u32_bytes(mask_of(v.flags))
    }

    open spec fn spec_parse(d: Seq<u8>, p: int) -> Result<(RtmsgView, int), DeError> {
        if !has_bytes(d, p, 12) {
            Err(truncated(p, 12))
        } else if RtTable::spec_from_code(d[p + 4]) is None {
            Err(unknown_code(p + 4, d[p + 4] as u32))
        } else if Rtprot::spec_from_code(d[p + 5]) is None {
            Err(unknown_code(p + 5, d[p + 5] as u32))
        } else if RtScope::spec_from_code(d[p + 6]) is None {
            Err(unknown_code(p + 6, d[p + 6] as u32))
        } else if Rtn::spec_from_code(d[p + 7]) is None {
            Err(unknown_code(p + 7, d[p + 7] as u32))
        } else {
            Ok(
                (
                    RtmsgView {
                        family: d[p],
                        dst_len: d[p + 1],
                        src_len: d[p + 2],
                        tos: d[p + 3],
                        table: RtTable::spec_from_code(d[p + 4])->Some_0,
                        protocol: Rtprot::spec_from_code(d[p + 5])->Some_0,
                        scope: RtScope::spec_from_code(d[p + 6])->Some_0,
                        rtype: Rtn::spec_from_code(d[p + 7])->Some_0,
                        flags: flags_of::<RtmF>(u32_at(d, p + 8)),
                    },
                    p + 12,
                ),
            )
        }
    }

    open spec fn spec_same(a: RtmsgView, b: RtmsgView) -> bool {
        &&& a.family == b.family
        &&& a.dst_len == b.dst_len
        &&& a.src_len == b.src_len
        &&& a.tos == b.tos
        &&& a.table == b.table
        &&& a.protocol == b.protocol
        &&& a.scope == b.scope
        &&& a.rtype == b.rtype
        &&& a.flags.to_set() == b.flags.to_set()
    }

    proof fn lemma_round_trip(v: RtmsgView, d: Seq<u8>, p: int) {
        let s = d.subrange(p, p + 12);
        assert(forall|k: int| 0 <= k < 12 ==> d[p + k] == #[trigger] s[k]);
        v.table.lemma_code(0);
        v.protocol.lemma_code(0);
        v.scope.lemma_code(0);
        v.rtype.lemma_code(0);
        lemma_u32_round_trip(mask_of(v.flags));
        lemma_flags_round_trip(v.flags);
        assert(d[p] == s[0] && d[p + 1] == s[1] && d[p + 2] == s[2] && d[p + 3] == s[3]);
        assert(d[p + 4] == s[4] && d[p + 5] == s[5] && d[p + 6] == s[6] && d[p + 7] == s[7]);
        assert(d[p + 8] == s[8] && d[p + 9] == s[9] && d[p + 10] == s[10] && d[p + 11] == s[11]);
    }

    fn size(&self) -> (r: usize) {
        1 + 1 + 1 + 1 + 1 + 1 + 1 + 1 + 4
    }

    fn serialize(&self, buf: &mut WriteBuffer) -> (r: Result<(), SerError>) {
        match buf.reserve(12) {
            Err(e) => Err(e),
            Ok(()) => {
                buf.put_u8(self.rtm_family);
                buf.put_u8(self.rtm_dst_len);
                buf.put_u8(self.rtm_src_len);
                buf.put_u8(self.rtm_tos);
                buf.put_u8(self.rtm_table.code());
                buf.put_u8(self.rtm_protocol.code());
                buf.put_u8(self.rtm_scope.code());
                buf.put_u8(self.rtm_type.code());
                buf.put_u32(encode_flags(&self.rtm_flags));
                assert(buf.bytes() =~= old(buf).bytes() + Self::spec_wire(self@));
                Ok(())
            },
        }
    }

    fn deserialize(buf: &mut ReadBuffer) -> (r: Result<Self, DeError>) {
        match buf.require(12) {
            Err(e) => {
                return Err(e);
            },
            Ok(()) => {},
        }
        let start = buf.position();
        let rtm_family = buf.get_u8();
        let rtm_dst_len = buf.get_u8();
        let rtm_src_len = buf.get_u8();
        let rtm_tos = buf.get_u8();
        let table = buf.get_u8();
        let protocol = buf.get_u8();
        let scope = buf.get_u8();
        let rtype = buf.get_u8();
        let flags = buf.get_u32();
        let rtm_table = match RtTable::from_code(table) {
            Some(t) => t,
            None => {
                buf.rewind(start);
                return Err(DeError::UnknownCode { offset: start + 4, code: table as u32 });
            },
        };
        let rtm_protocol = match Rtprot::from_code(protocol) {
            Some(t) => t,
            None => {
                buf.rewind(start);
                return Err(DeError::UnknownCode { offset: start + 5, code: protocol as u32 });
            },
        };
        let rtm_scope = match RtScope::from_code(scope) {
            Some(t) => t,
            None => {
                buf.rewind(start);
                return Err(DeError::UnknownCode { offset: start + 6, code: scope as u32 });
            },
        };
        let rtm_type = match Rtn::from_code(rtype) {
            Some(t) => t,
            None => {
                buf.rewind(start);
                return Err(DeError::UnknownCode { offset: start + 7, code: rtype as u32 });
            },
        };
        Ok(
            Rtmsg {
                rtm_family,
                rtm_dst_len,
                rtm_src_len,
                rtm_tos,
                rtm_table,
                rtm_protocol,
                rtm_scope,
                rtm_type,
                rtm_flags: decode_flags::<RtmF>(flags),
            },
        )
    }
}

} // verus!

verus! {

/// Neighbour table (ARP) entry.
pub struct Ndmsg {
    /// Address family of entry
    pub ndm_family: AddrFamily,
    /// Index of entry
    pub ndm_index: libc::c_int,
    /// State of entry
    pub ndm_state: Vec<Nud>,
    /// Flags for entry
    pub ndm_flags: Vec<Ntf>,
    /// Type of entry
    pub ndm_type: Rtn,
}

/// What a neighbour entry holds.
pub struct NdmsgView {
    pub family: AddrFamily,
    pub index: i32,
    pub state: Seq<Nud>,
    pub flags: Seq<Ntf>,
    pub ntype: Rtn,
}

impl View for Ndmsg {
    type V = NdmsgView;

    open spec fn view(&self) -> NdmsgView {
        NdmsgView {
            family: self.ndm_family,
            index: self.ndm_index,
            state: self.ndm_state@,
            flags: self.ndm_flags@,
            ntype: self.ndm_type,
        }
    }
}

impl Nl for Ndmsg {
    open spec fn spec_wire(v: NdmsgView) -> Seq<u8> {
        seq![v.family.spec_code()] + i32_bytes(v.index) + u16_bytes(mask_of(v.state) as u16)
            + seq![mask_of(v.flags) as u8, v.ntype.spec_code()]
    }

    open spec fn spec_parse(d: Seq<u8>, p: int) -> Result<(NdmsgView, int), DeError> {
        if !has_bytes(d, p, 9) {
            Err(truncated(p, 9))
        } else if AddrFamily::spec_from_code(d[p]) is None {
            Err(unknown_code(p, d[p] as u32))
        } else if Rtn::spec_from_code(d[p + 8]) is None {
            Err(unknown_code(p + 8, d[p + 8] as u32))
        } else {
            Ok(
                (
                    NdmsgView {
                        family: AddrFamily::spec_from_code(d[p])->Some_0,
                        index: i32_at(d, p + 1),
                        state: flags_of::<Nud>(u16_at(d, p + 5) as u32),
                        flags: flags_of::<Ntf>(d[p + 7] as u32),
                        ntype: Rtn::spec_from_code(d[p + 8])->Some_0,
                    },
                    p + 9,
                ),
            )
        }
    }

    open spec fn spec_same(a: NdmsgView, b: NdmsgView) -> bool {
        &&& a.family == b.family
        &&& a.index == b.index
        &&& a.state.to_set() == b.state.to_set()
        &&& a.flags.to_set() == b.flags.to_set()
        &&& a.ntype == b.ntype
    }

    proof fn lemma_round_trip(v: NdmsgView, d: Seq<u8>, p: int) {
        let s = d.subrange(p, p + 9);
        assert(forall|k: int| 0 <= k < 9 ==> d[p + k] == #[trigger] s[k]);
        v.family.lemma_code(0);
        v.ntype.lemma_code(0);
        lemma_u32_round_trip(v.index as u32);
        lemma_i32_round_trip(v.index);
        lemma_u16_mask(v.state);
        lemma_u16_round_trip(mask_of(v.state) as u16);
        lemma_flags_round_trip(v.state);
        lemma_u8_mask(v.flags);
        lemma_flags_round_trip(v.flags);
        assert(d[p] == s[0] && d[p + 1] == s[1] && d[p + 2] == s[2] && d[p + 3] == s[3]);
        assert(d[p + 4] == s[4] && d[p + 5] == s[5] && d[p + 6] == s[6] && d[p + 7] == s[7]);
        assert(d[p + 8] == s[8]);
    }

    fn size(&self) -> (r: usize) {
        1 + 4 + 2 + 1 + 1
    }

    fn serialize(&self, buf: &mut WriteBuffer) -> (r: Result<(), SerError>) {
        match buf.reserve(9) {
            Err(e) => Err(e),
            Ok(()) => {
                buf.put_u8(self.ndm_family.code());
                buf.put_i32(self.ndm_index);
                buf.put_u16(encode_flags(&self.ndm_state) as u16);
                buf.put_u8(encode_flags(&self.ndm_flags) as u8);
                buf.put_u8(self.ndm_type.code());
                assert(buf.bytes() =~= old(buf).bytes() + Self::spec_wire(self@));
                Ok(())
            },
        }
    }

    fn deserialize(buf: &mut ReadBuffer) -> (r: Result<Self, DeError>) {
        match buf.require(9) {
            Err(e) => {
                return Err(e);
            },
            Ok(()) => {},
        }
        let start = buf.position();
        let family = buf.get_u8();
        let ndm_index = buf.get_i32();
        let state = buf.get_u16();
        let flags = buf.get_u8();
        let ntype = buf.get_u8();
        let ndm_family = match AddrFamily::from_code(family) {
            Some(f) => f,
            None => {
                buf.rewind(start);
                return Err(DeError::UnknownCode { offset: start, code: family as u32 });
            },
        };
        let ndm_type = match Rtn::from_code(ntype) {
            Some(t) => t,
            None => {
                buf.rewind(start);
                return Err(DeError::UnknownCode { offset: start + 8, code: ntype as u32 });
            },
        };
        Ok(
            Ndmsg {
                ndm_family,
                ndm_index,
                ndm_state: decode_flags::<Nud>(state as u32),
                ndm_flags: decode_flags::<Ntf>(flags as u32),
                ndm_type,
            },
        )
    }
}

/// Neighbour cache counters.
#[derive(Debug, Clone, Copy, PartialEq, Eq, Structural)]
pub struct NdaCacheinfo {
    /// Confirmed
    pub ndm_confirmed: u32,
    /// Used
    pub ndm_used: u32,
    /// Updated
    pub ndm_updated: u32,
    /// Reference count
    pub ndm_refcnt: u32,
}

impl View for NdaCacheinfo {
    type V = NdaCacheinfo;

    open spec fn view(&self) -> NdaCacheinfo {
        *self
    }
}

impl Nl for NdaCacheinfo {
    open spec fn spec_wire(v: NdaCacheinfo) -> Seq<u8> {
        u32_bytes(v.ndm_confirmed) + u32_bytes(v.ndm_used) + u32_bytes(v.ndm_updated) + u32_bytes(
            v.ndm_refcnt,
        )
    }

    open spec fn spec_parse(d: Seq<u8>, p: int) -> Result<(NdaCacheinfo, int), DeError> {
        if !has_bytes(d, p, 16) {
            Err(truncated(p, 16))
        } else {
            Ok(
                (
                    NdaCacheinfo {
                        ndm_confirmed: u32_at(d, p),
                        ndm_used: u32_at(d, p + 4),
                        ndm_updated: u32_at(d, p + 8),
                        ndm_refcnt: u32_at(d, p + 12),
                    },
                    p + 16,
                ),
            )
        }
    }

    open spec fn spec_same(a: NdaCacheinfo, b: NdaCacheinfo) -> bool {
        a == b
    }

    proof fn lemma_round_trip(v: NdaCacheinfo, d: Seq<u8>, p: int) {
        let s = d.subrange(p, p + 16);
        assert(forall|k: int| 0 <= k < 16 ==> d[p + k] == #[trigger] s[k]);
        lemma_u32_round_trip(v.ndm_confirmed);
        lemma_u32_round_trip(v.ndm_used);
        lemma_u32_round_trip(v.ndm_updated);
        lemma_u32_round_trip(v.ndm_refcnt);
        assert(d[p] == s[0] && d[p + 1] == s[1] && d[p + 2] == s[2] && d[p + 3] == s[3]);
        assert(d[p + 4] == s[4] && d[p + 5] == s[5] && d[p + 6] == s[6] && d[p + 7] == s[7]);
        assert(d[p + 8] == s[8] && d[p + 9] == s[9] && d[p + 10] == s[10] && d[p + 11] == s[11]);
        assert(d[p + 12] == s[12] && d[p + 13] == s[13] && d[p + 14] == s[14] && d[p + 15]
            == s[15]);
    }

    fn size(&self) -> (r: usize) {
        4 + 4 + 4 + 4
    }

    fn serialize(&self, buf: &mut WriteBuffer) -> (r: Result<(), SerError>) {
        match buf.reserve(16) {
            Err(e) => Err(e),
            Ok(()) => {
                buf.put_u32(self.ndm_confirmed);
                buf.put_u32(self.ndm_used);
                buf.put_u32(self.ndm_updated);
                buf.put_u32(self.ndm_refcnt);
                assert(buf.bytes() =~= old(buf).bytes() + Self::spec_wire(self@));
                Ok(())
            },
        }
    }

    fn deserialize(buf: &mut ReadBuffer) -> (r: Result<Self, DeError>) {
        match buf.require(16) {
            Err(e) => {
                return Err(e);
            },
            Ok(()) => {},
        }
        let ndm_confirmed = buf.get_u32();
        let ndm_used = buf.get_u32();
        let ndm_updated = buf.get_u32();
        let ndm_refcnt = buf.get_u32();
        Ok(NdaCacheinfo { ndm_confirmed, ndm_used, ndm_updated, ndm_refcnt })
    }
}

/// Attribute envelope: a stored length, an attribute type and a payload.
pub struct RtAttr<T, P> {
    /// Length of the attribute, as the caller stored it
    pub rta_len: libc::c_ushort,
    /// Type of the attribute
    pub rta_type: T,
    /// Payload of the attribute
    pub rta_payload: P,
}

/// What an attribute envelope holds.
pub struct RtAttrView<T, V> {
    pub len: u16,
    pub rtype: T,
    pub payload: V,
}

impl<T: RtaType, P: Nl> View for RtAttr<T, P> {
    type V = RtAttrView<T, P::V>;

    open spec fn view(&self) -> RtAttrView<T, P::V> {
        RtAttrView { len: self.rta_len, rtype: self.rta_type, payload: self.rta_payload@ }
    }
}

impl<T: RtaType, P: Nl> Nl for RtAttr<T, P> {
    open spec fn spec_wire(v: RtAttrView<T, P::V>) -> Seq<u8> {
        u16_bytes(v.len) + u16_bytes(v.rtype.spec_code()) + P::spec_wire(v.payload)
    }

    open spec fn spec_parse(d: Seq<u8>, p: int) -> Result<(RtAttrView<T, P::V>, int), DeError> {
        if !has_bytes(d, p, 4) {
            Err(truncated(p, 4))
        } else if T::spec_from_code(u16_at(d, p + 2)) is None {
            Err(unknown_code(p + 2, u16_at(d, p + 2) as u32))
        } else {
            match P::spec_parse(d, p + 4) {
                Err(e) => Err(e),
                Ok((payload, np)) => Ok(
                    (
                        RtAttrView {
                            len: u16_at(d, p),
                            rtype: T::spec_from_code(u16_at(d, p + 2))->Some_0,
                            payload,
                        },
                        np,
                    ),
                ),
            }
        }
    }

    open spec fn spec_same(a: RtAttrView<T, P::V>, b: RtAttrView<T, P::V>) -> bool {
        &&& a.len == b.len
        &&& a.rtype == b.rtype
        &&& P::spec_same(a.payload, b.payload)
    }

    proof fn lemma_round_trip(v: RtAttrView<T, P::V>, d: Seq<u8>, p: int) {
        let w = Self::spec_wire(v);
        let pw = P::spec_wire(v.payload);
        let s = d.subrange(p, p + w.len());
        assert(forall|k: int| 0 <= k < w.len() ==> d[p + k] == #[trigger] s[k]);
        assert(d[p] == s[0] && d[p + 1] == s[1] && d[p + 2] == s[2] && d[p + 3] == s[3]);
        assert(d.subrange(p + 4, p + 4 + pw.len()) =~= pw) by {
            assert forall|k: int| 0 <= k < pw.len() implies d.subrange(p + 4, p + 4 + pw.len())[k]
                == pw[k] by {
                assert(s[4 + k] == w[4 + k]);
            }
        }
        lemma_u16_round_trip(v.len);
        lemma_u16_round_trip(v.rtype.spec_code());
        v.rtype.lemma_code();
        P::lemma_round_trip(v.payload, d, p + 4);
    }

    fn size(&self) -> (r: usize) {
        2 + 2 + self.rta_payload.size()
    }

    fn serialize(&self, buf: &mut WriteBuffer) -> (r: Result<(), SerError>) {
        let total = self.size();
        match buf.reserve(total) {
            Err(e) => Err(e),
            Ok(()) => {
                buf.put_u16(self.rta_len);
                buf.put_u16(self.rta_type.code());
                match self.rta_payload.serialize(buf) {
                    Ok(()) => {},
                    Err(_) => {
                        assert(false);
                    },
                }
                assert(buf.bytes() =~= old(buf).bytes() + Self::spec_wire(self@));
                Ok(())
            },
        }
    }

    fn deserialize(buf: &mut ReadBuffer) -> (r: Result<Self, DeError>) {
        match buf.require(4) {
            Err(e) => {
                return Err(e);
            },
            Ok(()) => {},
        }
        let start = buf.position();
        let rta_len = buf.get_u16();
        let code = buf.get_u16();
        let rta_type = match T::from_code(code) {
            Some(t) => t,
            None => {
                buf.rewind(start);
                return Err(DeError::UnknownCode { offset: start + 2, code: code as u32 });
            },
        };
        match P::deserialize(buf) {
            Err(e) => {
                buf.rewind(start);
                Err(e)
            },
            Ok(rta_payload) => Ok(RtAttr { rta_len, rta_type, rta_payload }),
        }
    }
}

} // verus!

verus! {

/// Decoding an interface record yields an all-ones change mask, whatever
/// mask the encoded record held.
pub proof fn lemma_change_mask_all_ones(v: IfinfomsgView, d: Seq<u8>, p: int)
    requires
        0 <= p,
        p + Ifinfomsg::spec_wire(v).len() <= d.len(),
        d.subrange(p, p + Ifinfomsg::spec_wire(v).len()) == Ifinfomsg::spec_wire(v),
    ensures
        Ifinfomsg::spec_parse(d, p) is Ok,
        Ifinfomsg::spec_parse(d, p)->Ok_0.0.change == IFI_CHANGE_ALL,
        Ifinfomsg::spec_wire(v) == Ifinfomsg::spec_wire(IfinfomsgView { change: IFI_CHANGE_ALL, ..v }),
{
    Ifinfomsg::lemma_round_trip(v, d, p);
}

/// Every record is encoded in a fixed number of bytes, and decoding fewer
/// bytes than that fails with a truncation error at the record's start.
pub proof fn lemma_short_input_truncated(d: Seq<u8>, p: int)
    requires
        0 <= p,
    ensures
        forall|v: IfinfomsgView| #[trigger] Ifinfomsg::spec_wire(v).len() == 15,
        forall|v: IfaddrmsgView| #[trigger] Ifaddrmsg::spec_wire(v).len() == 8,
        forall|v: RtmsgView| #[trigger] Rtmsg::spec_wire(v).len() == 12,
        forall|v: NdmsgView| #[trigger] Ndmsg::spec_wire(v).len() == 9,
        forall|v: NdaCacheinfo| #[trigger] NdaCacheinfo::spec_wire(v).len() == 16,
        d.len() < p + 15 ==> Ifinfomsg::spec_parse(d, p) == Err::<(IfinfomsgView, int), DeError>(
            truncated(p, 15),
        ),
        d.len() < p + 8 ==> Ifaddrmsg::spec_parse(d, p) == Err::<(IfaddrmsgView, int), DeError>(
            truncated(p, 8),
        ),
        d.len() < p + 12 ==> Rtmsg::spec_parse(d, p) == Err::<(RtmsgView, int), DeError>(
            truncated(p, 12),
        ),
        d.len() < p + 9 ==> Ndmsg::spec_parse(d, p) == Err::<(NdmsgView, int), DeError>(
            truncated(p, 9),
        ),
        d.len() < p + 16 ==> NdaCacheinfo::spec_parse(d, p) == Err::<(NdaCacheinfo, int), DeError>(
            truncated(p, 16),
        ),
{
}

} // verus!
