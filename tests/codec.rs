use rtnl::buffer::{DeError, ReadBuffer, SerError, WriteBuffer};
use rtnl::consts::{AddrFamily, Arphrd, IfaF, Ifla, Iff, Nda, Ntf, Nud, RtScope, RtTable, RtmF, Rtn, Rtprot};
use rtnl::flags::{decode_flags, encode_flags};
use rtnl::nl::Nl;
use rtnl::rtnl::{Ifaddrmsg, Ifinfomsg, Ndmsg, NdaCacheinfo, RtAttr, Rtmsg};

fn encode<T: Nl>(v: &T) -> Vec<u8> {
    let mut buf = WriteBuffer::new_growable();
    v.serialize(&mut buf).unwrap();
    buf.into_bytes()
}

fn sample_route(flags: Vec<RtmF>) -> Rtmsg {
    Rtmsg {
        rtm_family: 2,
        rtm_dst_len: 24,
        rtm_src_len: 0,
        rtm_tos: 0,
        rtm_table: RtTable::Main,
        rtm_protocol: Rtprot::Static,
        rtm_scope: RtScope::Universe,
        rtm_type: Rtn::Unicast,
        rtm_flags: flags,
    }
}

#[test]
fn interface_info_scenario_bytes_and_back() {
    let msg = Ifinfomsg::new(AddrFamily::Inet, Arphrd::Ether, 2, vec![Iff::Up, Iff::Running]);
    let bytes = encode(&msg);
    assert_eq!(
        bytes,
        vec![2, 1, 0, 2, 0, 0, 0, 0x41, 0, 0, 0, 0xff, 0xff, 0xff, 0xff]
    );
    assert_eq!(msg.size(), bytes.len());
    let mut rd = ReadBuffer::new(bytes);
    let back = Ifinfomsg::deserialize(&mut rd).unwrap();
    assert_eq!(back.ifi_family, AddrFamily::Inet);
    assert_eq!(back.ifi_type, Arphrd::Ether);
    assert_eq!(back.ifi_index, 2);
    assert_eq!(back.ifi_flags, vec![Iff::Up, Iff::Running]);
    assert_eq!(back.ifi_change, 0xffff_ffff);
    assert!(rd.at_end());
}

#[test]
fn interface_info_change_mask_always_all_ones() {
    let mut msg = Ifinfomsg::new(AddrFamily::Inet6, Arphrd::Loopback, -7, vec![Iff::LowerUp]);
    msg.ifi_change = 5;
    let bytes = encode(&msg);
    assert_eq!(&bytes[11..15], &[0xff, 0xff, 0xff, 0xff]);
    assert_eq!(&bytes[1..3], &[0x04, 0x03]);
    assert_eq!(&bytes[3..7], &[0xf9, 0xff, 0xff, 0xff]);
    let back = Ifinfomsg::deserialize(&mut ReadBuffer::new(bytes)).unwrap();
    assert_eq!(back.ifi_change, 0xffff_ffff);
    assert_eq!(back.ifi_index, -7);
    assert_eq!(back.ifi_flags, vec![Iff::LowerUp]);
}

#[test]
fn route_with_empty_flags_ends_in_four_zero_bytes() {
    let route = sample_route(vec![]);
    let bytes = encode(&route);
    assert_eq!(bytes.len(), 12);
    assert_eq!(&bytes[8..12], &[0, 0, 0, 0]);
    assert_eq!(&bytes[0..8], &[2, 24, 0, 0, 254, 4, 0, 1]);
}

#[test]
fn route_round_trip() {
    let route = sample_route(vec![RtmF::Cloned, RtmF::Notify]);
    let bytes = encode(&route);
    assert_eq!(&bytes[8..12], &[0x00, 0x03, 0, 0]);
    let back = Rtmsg::deserialize(&mut ReadBuffer::new(bytes)).unwrap();
    assert_eq!(back.rtm_family, 2);
    assert_eq!(back.rtm_dst_len, 24);
    assert_eq!(back.rtm_table, RtTable::Main);
    assert_eq!(back.rtm_protocol, Rtprot::Static);
    assert_eq!(back.rtm_scope, RtScope::Universe);
    assert_eq!(back.rtm_type, Rtn::Unicast);
    assert_eq!(back.rtm_flags, vec![RtmF::Notify, RtmF::Cloned]);
}

#[test]
fn address_round_trip() {
    let addr = Ifaddrmsg {
        ifa_family: AddrFamily::Inet,
        ifa_prefixlen: 24,
        ifa_flags: vec![IfaF::Permanent, IfaF::Secondary],
        ifa_scope: 0,
        ifa_index: 3,
    };
    let bytes = encode(&addr);
    assert_eq!(bytes, vec![2, 24, 0x81, 0, 3, 0, 0, 0]);
    assert_eq!(addr.size(), 8);
    let back = Ifaddrmsg::deserialize(&mut ReadBuffer::new(bytes)).unwrap();
    assert_eq!(back.ifa_family, AddrFamily::Inet);
    assert_eq!(back.ifa_prefixlen, 24);
    assert_eq!(back.ifa_flags, vec![IfaF::Secondary, IfaF::Permanent]);
    assert_eq!(back.ifa_scope, 0);
    assert_eq!(back.ifa_index, 3);
}

#[test]
fn neighbour_round_trip() {
    let nd = Ndmsg {
        ndm_family: AddrFamily::Inet,
        ndm_index: 4,
        ndm_state: vec![Nud::Reachable, Nud::Permanent],
        ndm_flags: vec![Ntf::Router],
        ndm_type: Rtn::Unicast,
    };
    let bytes = encode(&nd);
    assert_eq!(bytes, vec![2, 4, 0, 0, 0, 0x82, 0, 0x80, 1]);
    assert_eq!(nd.size(), 9);
    let back = Ndmsg::deserialize(&mut ReadBuffer::new(bytes)).unwrap();
    assert_eq!(back.ndm_family, AddrFamily::Inet);
    assert_eq!(back.ndm_index, 4);
    assert_eq!(back.ndm_state, vec![Nud::Reachable, Nud::Permanent]);
    assert_eq!(back.ndm_flags, vec![Ntf::Router]);
    assert_eq!(back.ndm_type, Rtn::Unicast);
}

#[test]
fn cache_info_round_trip() {
    let ci = NdaCacheinfo { ndm_confirmed: 1, ndm_used: 0x0102_0304, ndm_updated: 0, ndm_refcnt: u32::MAX };
    let bytes = encode(&ci);
    assert_eq!(bytes, vec![1, 0, 0, 0, 4, 3, 2, 1, 0, 0, 0, 0, 0xff, 0xff, 0xff, 0xff]);
    assert_eq!(ci.size(), 16);
    let back = NdaCacheinfo::deserialize(&mut ReadBuffer::new(bytes)).unwrap();
    assert_eq!(back, ci);
}

#[test]
fn flag_sets_round_trip_as_sets() {
    let flags = vec![Iff::Running, Iff::Up, Iff::Running, Iff::Echo];
    let raw = encode_flags(&flags);
    assert_eq!(raw, 0x1 | 0x40 | 0x40000);
    assert_eq!(decode_flags::<Iff>(raw), vec![Iff::Up, Iff::Running, Iff::Echo]);
    assert_eq!(encode_flags::<Nud>(&vec![]), 0);
    assert_eq!(decode_flags::<Nud>(0), vec![]);
    let all: Vec<IfaF> = decode_flags::<IfaF>(0xff);
    assert_eq!(all.len(), 8);
    assert_eq!(encode_flags(&all), 0xff);
}

#[test]
fn unknown_flag_bits_are_dropped() {
    assert_eq!(decode_flags::<RtmF>(0xffff_ffff), vec![
        RtmF::Notify, RtmF::Cloned, RtmF::Equalize, RtmF::Prefix, RtmF::LookupTable, RtmF::FibMatch,
    ]);
    assert_eq!(decode_flags::<Ntf>(0x40 | 0x01), vec![Ntf::Use]);
    let back = Ifinfomsg::deserialize(&mut ReadBuffer::new(vec![
        2, 1, 0, 0, 0, 0, 0, 0x01, 0, 0, 0x80, 0, 0, 0, 0,
    ])).unwrap();
    assert_eq!(back.ifi_flags, vec![Iff::Up]);
}

#[test]
fn short_input_is_truncated_for_every_record() {
    let full = encode(&Ifinfomsg::new(AddrFamily::Inet, Arphrd::Ether, 1, vec![]));
    for n in 0..15 {
        let mut rd = ReadBuffer::new(full[..n].to_vec());
        assert!(matches!(Ifinfomsg::deserialize(&mut rd), Err(DeError::Truncated { offset: 0, needed: 15 })));
        assert_eq!(rd.position(), 0);
    }
    assert!(matches!(Ifaddrmsg::deserialize(&mut ReadBuffer::new(vec![2; 7])), Err(DeError::Truncated { offset: 0, needed: 8 })));
    assert!(matches!(Rtmsg::deserialize(&mut ReadBuffer::new(vec![0; 11])), Err(DeError::Truncated { offset: 0, needed: 12 })));
    assert!(matches!(Ndmsg::deserialize(&mut ReadBuffer::new(vec![2; 8])), Err(DeError::Truncated { offset: 0, needed: 9 })));
    assert!(matches!(NdaCacheinfo::deserialize(&mut ReadBuffer::new(vec![0; 15])), Err(DeError::Truncated { offset: 0, needed: 16 })));
    // a bad code in a short buffer is still a truncation
    assert!(matches!(Ndmsg::deserialize(&mut ReadBuffer::new(vec![99])), Err(DeError::Truncated { offset: 0, needed: 9 })));
}

#[test]
fn unknown_codes_are_reported_with_their_offset() {
    let mut rd = ReadBuffer::new(vec![3, 1, 0, 0, 0, 0, 0, 0, 0, 0, 0, 0, 0, 0, 0]);
    assert_eq!(Ifinfomsg::deserialize(&mut rd).err(), Some(DeError::UnknownCode { offset: 0, code: 3 }));
    assert_eq!(rd.position(), 0);
    let mut rd = ReadBuffer::new(vec![2, 0x34, 0x12, 0, 0, 0, 0, 0, 0, 0, 0, 0, 0, 0, 0]);
    assert_eq!(Ifinfomsg::deserialize(&mut rd).err(), Some(DeError::UnknownCode { offset: 1, code: 0x1234 }));
    let mut route = encode(&sample_route(vec![]));
    route[5] = 99;
    assert_eq!(Rtmsg::deserialize(&mut ReadBuffer::new(route.clone())).err(), Some(DeError::UnknownCode { offset: 5, code: 99 }));
    route[4] = 7;
    assert_eq!(Rtmsg::deserialize(&mut ReadBuffer::new(route.clone())).err(), Some(DeError::UnknownCode { offset: 4, code: 7 }));
    let mut route = encode(&sample_route(vec![]));
    route[6] = 1;
    assert_eq!(Rtmsg::deserialize(&mut ReadBuffer::new(route.clone())).err(), Some(DeError::UnknownCode { offset: 6, code: 1 }));
    route[6] = 0;
    route[7] = 12;
    assert_eq!(Rtmsg::deserialize(&mut ReadBuffer::new(route)).err(), Some(DeError::UnknownCode { offset: 7, code: 12 }));
    assert_eq!(Ndmsg::deserialize(&mut ReadBuffer::new(vec![2, 0, 0, 0, 0, 0, 0, 0, 200])).err(), Some(DeError::UnknownCode { offset: 8, code: 200 }));
    assert_eq!(Ifaddrmsg::deserialize(&mut ReadBuffer::new(vec![11, 0, 0, 0, 0, 0, 0, 0])).err(), Some(DeError::UnknownCode { offset: 0, code: 11 }));
}

#[test]
fn full_buffer_fails_and_writes_nothing() {
    let mut buf = WriteBuffer::new_sized(20);
    let ci = NdaCacheinfo { ndm_confirmed: 1, ndm_used: 2, ndm_updated: 3, ndm_refcnt: 4 };
    ci.serialize(&mut buf).unwrap();
    assert_eq!(buf.len(), 16);
    assert_eq!(ci.serialize(&mut buf), Err(SerError::BufferFull { offset: 16, needed: 16 }));
    assert_eq!(buf.len(), 16);
    let nd = Ndmsg { ndm_family: AddrFamily::Inet, ndm_index: 1, ndm_state: vec![], ndm_flags: vec![], ndm_type: Rtn::Local };
    assert_eq!(nd.serialize(&mut buf), Err(SerError::BufferFull { offset: 16, needed: 9 }));
    assert_eq!(0u32.serialize(&mut buf), Ok(()));
    assert_eq!(buf.as_bytes().len(), 20);
    assert_eq!(7u8.serialize(&mut buf), Err(SerError::BufferFull { offset: 20, needed: 1 }));
}

#[test]
fn records_decode_one_after_another() {
    let mut buf = WriteBuffer::new_growable();
    let ci = NdaCacheinfo { ndm_confirmed: 9, ndm_used: 8, ndm_updated: 7, ndm_refcnt: 6 };
    sample_route(vec![RtmF::Prefix]).serialize(&mut buf).unwrap();
    ci.serialize(&mut buf).unwrap();
    let mut rd = ReadBuffer::new(buf.into_bytes());
    let route = Rtmsg::deserialize(&mut rd).unwrap();
    assert_eq!(route.rtm_flags, vec![RtmF::Prefix]);
    assert_eq!(rd.position(), 12);
    assert_eq!(NdaCacheinfo::deserialize(&mut rd).unwrap(), ci);
    assert!(rd.at_end());
}

#[test]
fn attribute_round_trip_with_scalar_payload() {
    let attr: RtAttr<Ifla, u32> = RtAttr { rta_len: 8, rta_type: Ifla::Mtu, rta_payload: 1500 };
    assert_eq!(attr.size(), 8);
    let bytes = encode(&attr);
    assert_eq!(bytes, vec![8, 0, 4, 0, 0xdc, 0x05, 0, 0]);
    let back = RtAttr::<Ifla, u32>::deserialize(&mut ReadBuffer::new(bytes)).unwrap();
    assert_eq!(back.rta_len, 8);
    assert_eq!(back.rta_type, Ifla::Mtu);
    assert_eq!(back.rta_payload, 1500);
}

#[test]
fn attribute_round_trip_with_record_payload() {
    let ci = NdaCacheinfo { ndm_confirmed: 10, ndm_used: 20, ndm_updated: 30, ndm_refcnt: 2 };
    let attr: RtAttr<Nda, NdaCacheinfo> = RtAttr { rta_len: 20, rta_type: Nda::Cacheinfo, rta_payload: ci };
    assert_eq!(attr.size(), 20);
    let bytes = encode(&attr);
    assert_eq!(bytes.len(), 20);
    assert_eq!(&bytes[0..4], &[20, 0, 3, 0]);
    let back = RtAttr::<Nda, NdaCacheinfo>::deserialize(&mut ReadBuffer::new(bytes)).unwrap();
    assert_eq!(back.rta_type, Nda::Cacheinfo);
    assert_eq!(back.rta_payload, ci);
}

#[test]
fn attribute_stored_length_is_not_checked() {
    let attr: RtAttr<Ifla, u16> = RtAttr { rta_len: 99, rta_type: Ifla::Link, rta_payload: 7 };
    let bytes = encode(&attr);
    assert_eq!(bytes, vec![99, 0, 5, 0, 7, 0]);
    let back = RtAttr::<Ifla, u16>::deserialize(&mut ReadBuffer::new(bytes)).unwrap();
    assert_eq!(back.rta_len, 99);
    assert_eq!(back.rta_payload, 7);
}

#[test]
fn attribute_errors() {
    let mut rd = ReadBuffer::new(vec![8, 0, 77, 0, 1, 0, 0, 0]);
    assert_eq!(RtAttr::<Ifla, u32>::deserialize(&mut rd).err(), Some(DeError::UnknownCode { offset: 2, code: 77 }));
    assert_eq!(rd.position(), 0);
    let mut rd = ReadBuffer::new(vec![8, 0, 4, 0, 1, 0]);
    assert_eq!(RtAttr::<Ifla, u32>::deserialize(&mut rd).err(), Some(DeError::Truncated { offset: 4, needed: 4 }));
    assert_eq!(rd.position(), 0);
    assert_eq!(RtAttr::<Ifla, u32>::deserialize(&mut ReadBuffer::new(vec![8, 0])).err(), Some(DeError::Truncated { offset: 0, needed: 4 }));
}

#[test]
fn enumeration_codes_map_both_ways() {
    assert_eq!(AddrFamily::from_code(10), Some(AddrFamily::Inet6));
    assert_eq!(AddrFamily::from_code(3), None);
    assert_eq!(Arphrd::Loopback.code(), 772);
    assert_eq!(Arphrd::from_code(0xffff), Some(Arphrd::Void));
    assert_eq!(RtScope::Host.code(), 254);
    assert_eq!(Rtprot::from_code(16), Some(Rtprot::Dhcp));
}
