use peel_ip::prelude::{ArpHardwareType, ArpOperation, ArpPacket, ArpParser, EtherType,
    EthernetPacket, EthernetParser, IcmpData, IcmpEcho, IcmpPacket, IcmpParser, IcmpType,
    Icmpv6Packet, Icmpv6Parser, Icmpv6Type, IpProtocol, Ipv4Addr, Ipv4Packet, Ipv4Parser,
    Ipv6Addr, Ipv6Packet, Ipv6Parser, Layer, MacAddress, Needed, NtpPacket, NtpParser, Outcome,
    RejectReason, TcpParser, TlsParser, TlsRecordContentType, UdpParser};

static IPV4_HEADER: &'static [u8] = &[0x45, 0x00, 0x00, 0x34, 0x73, 0x22, 0x40, 0x00, 0x3f, 0x06,
                                      0x3a, 0x09, 0x0a, 0x00, 0x00, 0x65, 0x42, 0xc4, 0x41, 0x70];

static TCP_HEADER: &'static [u8] = &[0xca, 0x45, 0x01, 0xbb, 0x98, 0x66, 0x5f, 0x0a, 0x44, 0x9d,
                                     0x7f, 0x05, 0x80, 0x10, 0x20, 0x00, 0xbf, 0xf2, 0x00, 0x00,
                                     0x01, 0x01, 0x08, 0x0a, 0x00, 0x02, 0x2c, 0x2c, 0x63, 0x93,
                                     0xf1, 0x5b];

fn rejected(reason: RejectReason, offset: usize) -> Outcome {
    Outcome::Rejected { reason, offset }
}

fn ipv4_of(outcome: Outcome) -> Ipv4Packet {
    match outcome {
        Outcome::Decoded { consumed: 20, layer: Layer::Ipv4(packet) } => packet,
        other => panic!("no IPv4 header: {:?}", other),
    }
}

#[test]
fn ipv4_header_fields_are_bit_exact() {
    let mut parser = Ipv4Parser;
    let mut input = Vec::from(IPV4_HEADER);
    input[1] = 0xb8;
    input[6] = 0x5f;
    input[7] = 0xff;
    input.extend_from_slice(&[1, 2, 3]);
    assert_eq!(ipv4_of(parser.parse(&input, None)),
               Ipv4Packet {
                   version: 4,
                   ihl: 20,
                   tos: 0xb8,
                   length: 52,
                   id: 29474,
                   flags: 2,
                   fragment_offset: 0x1fff,
                   ttl: 63,
                   protocol: IpProtocol::Tcp,
                   checksum: 14857,
                   src: Ipv4Addr::new(10, 0, 0, 101),
                   dst: Ipv4Addr::new(66, 196, 65, 112),
               });
}

#[test]
fn ipv4_header_length_is_four_times_the_low_nibble() {
    let mut parser = Ipv4Parser;
    for words in 0..16u8 {
        let mut input = Vec::from(IPV4_HEADER);
        input[0] = 0x40 | words;
        let packet = ipv4_of(parser.parse(&input, None));
        assert_eq!(packet.ihl, 4 * words);
        assert_eq!(packet.version, 4);
    }
}

#[test]
fn ipv4_other_versions_are_rejected() {
    let mut parser = Ipv4Parser;
    for high in 0..16u8 {
        if high == 4 {
            continue;
        }
        let mut input = Vec::from(IPV4_HEADER);
        input[0] = (high << 4) | 5;
        assert_eq!(parser.parse(&input, None), rejected(RejectReason::Version, 0));
        assert_eq!(parser.parse(&input[..1], None), rejected(RejectReason::Version, 0));
    }
}

#[test]
fn ipv4_unknown_protocol_is_rejected_where_it_stands() {
    let mut parser = Ipv4Parser;
    let mut input = Vec::from(IPV4_HEADER);
    input[9] = 2;
    assert_eq!(parser.parse(&input, None), rejected(RejectReason::UnknownValue, 9));
    assert_eq!(parser.parse(&input[..10], None), rejected(RejectReason::UnknownValue, 9));
}

#[test]
fn ipv4_short_input_names_the_missing_octets() {
    let mut parser = Ipv4Parser;
    assert_eq!(parser.parse(&[], None), Outcome::Incomplete(Needed::Size(20)));
    assert_eq!(parser.parse(&IPV4_HEADER[..1], None), Outcome::Incomplete(Needed::Size(19)));
    assert_eq!(parser.parse(&IPV4_HEADER[..9], None), Outcome::Incomplete(Needed::Size(11)));
    assert_eq!(parser.parse(&IPV4_HEADER[..19], None), Outcome::Incomplete(Needed::Size(1)));
}

#[test]
fn ip_protocol_numbers() {
    assert_eq!(IpProtocol::from_u8(1), Some(IpProtocol::Icmp));
    assert_eq!(IpProtocol::from_u8(4), Some(IpProtocol::IpIp));
    assert_eq!(IpProtocol::from_u8(6), Some(IpProtocol::Tcp));
    assert_eq!(IpProtocol::from_u8(17), Some(IpProtocol::Udp));
    assert_eq!(IpProtocol::from_u8(41), Some(IpProtocol::Ipv6));
    assert_eq!(IpProtocol::from_u8(58), Some(IpProtocol::Icmpv6));
    let known = [1u8, 4, 6, 17, 41, 58];
    for n in 0..=255u8 {
        assert_eq!(IpProtocol::from_u8(n).is_some(), known.contains(&n));
    }
}

#[test]
fn tls_content_type_numbers() {
    assert_eq!(TlsRecordContentType::from_u8(20), Some(TlsRecordContentType::ChangeCipherSpec));
    assert_eq!(TlsRecordContentType::from_u8(21), Some(TlsRecordContentType::Alert));
    assert_eq!(TlsRecordContentType::from_u8(22), Some(TlsRecordContentType::Handshake));
    assert_eq!(TlsRecordContentType::from_u8(23), Some(TlsRecordContentType::ApplicationData));
    assert_eq!(TlsRecordContentType::from_u8(24), Some(TlsRecordContentType::Heartbeat));
    for n in 0..=255u8 {
        assert_eq!(TlsRecordContentType::from_u8(n).is_some(), (20..=24).contains(&n));
    }
}

#[test]
fn ipv6_bit_fields_are_bit_exact() {
    let mut parser = Ipv6Parser;
    let mut input = vec![0x6a, 0xbc, 0xde, 0xf1, 0x01, 0x02, 0x3a, 0x07];
    input.extend_from_slice(&[0x20, 0x01, 0x0d, 0xb8, 0, 0, 0, 1, 0, 0, 0, 0, 0, 0, 0, 1]);
    input.extend_from_slice(&[0xff, 0x02, 0, 0, 0, 0, 0, 0, 0, 0, 0, 0, 0, 0, 0x12, 0x34]);
    input.push(0x99);
    assert_eq!(parser.parse(&input, None),
               Outcome::Decoded {
                   consumed: 40,
                   layer: Layer::Ipv6(Ipv6Packet {
                       version: 6,
                       traffic_class: 0xab,
                       flow_label: 0xcdef1,
                       payload_length: 258,
                       next_header: IpProtocol::Icmpv6,
                       hop_limit: 7,
                       src: Ipv6Addr::new(0x2001, 0xdb8, 0, 1, 0, 0, 0, 1),
                       dst: Ipv6Addr::new(0xff02, 0, 0, 0, 0, 0, 0, 0x1234),
                   }),
               });
}

#[test]
fn ipv6_wrong_version_is_rejected_whatever_follows() {
    let mut parser = Ipv6Parser;
    let mut input = vec![0x60, 0, 0, 0, 0, 0, 6, 64];
    input.extend_from_slice(&[0; 32]);
    assert!(matches!(parser.parse(&input, None), Outcome::Decoded { consumed: 40, .. }));
    for high in 0..16u8 {
        if high == 6 {
            continue;
        }
        input[0] = high << 4;
        assert_eq!(parser.parse(&input, None), rejected(RejectReason::Version, 0));
    }
}

#[test]
fn ipv6_unknown_next_header_and_short_input() {
    let mut parser = Ipv6Parser;
    let mut input = vec![0x60, 0, 0, 0, 0, 0, 0xff, 64];
    input.extend_from_slice(&[0; 32]);
    assert_eq!(parser.parse(&input, None), rejected(RejectReason::UnknownValue, 6));
    input[6] = 17;
    assert_eq!(parser.parse(&input[..39], None), Outcome::Incomplete(Needed::Size(1)));
    assert_eq!(parser.parse(&input[..3], None), Outcome::Incomplete(Needed::Size(37)));
    assert_eq!(parser.parse(&[], None), Outcome::Incomplete(Needed::Size(40)));
}

#[test]
fn ethernet_header_decodes() {
    let mut parser = EthernetParser;
    let input = [1, 2, 3, 4, 5, 6, 7, 8, 9, 10, 11, 12, 0x86, 0xdd, 0x60];
    assert_eq!(parser.parse(&input, None),
               Outcome::Decoded {
                   consumed: 14,
                   layer: Layer::Ethernet(EthernetPacket {
                       dst: MacAddress(1, 2, 3, 4, 5, 6),
                       src: MacAddress(7, 8, 9, 10, 11, 12),
                       ethertype: EtherType::Ipv6,
                   }),
               });
    assert_eq!(parser.parse(&input[..13], None), Outcome::Incomplete(Needed::Size(1)));
    let unknown = [0, 0, 0, 0, 0, 0, 0, 0, 0, 0, 0, 0, 0x12, 0x34];
    assert_eq!(parser.parse(&unknown, None), rejected(RejectReason::UnknownValue, 12));
    assert_eq!(EtherType::from_u16(0x0800), Some(EtherType::Ipv4));
    assert_eq!(EtherType::from_u16(0x0806), Some(EtherType::Arp));
    assert_eq!(EtherType::from_u16(0x86dd), Some(EtherType::Ipv6));
    assert_eq!(EtherType::from_u16(0), None);
}

#[test]
fn arp_message_decodes() {
    let mut parser = ArpParser;
    let input = [0x00, 0x01, 0x08, 0x00, 6, 4, 0x00, 0x02, 1, 2, 3, 4, 5, 6, 192, 168, 0, 1, 7,
                 8, 9, 10, 11, 12, 192, 168, 0, 2];
    assert_eq!(parser.parse(&input, None),
               Outcome::Decoded {
                   consumed: 28,
                   layer: Layer::Arp(ArpPacket {
                       hardware_type: ArpHardwareType::Ethernet,
                       protocol_type: EtherType::Ipv4,
                       hardware_length: 6,
                       protocol_length: 4,
                       operation: ArpOperation::Reply,
                       sender_hardware_address: MacAddress(1, 2, 3, 4, 5, 6),
                       sender_protocol_address: Ipv4Addr::new(192, 168, 0, 1),
                       target_hardware_address: MacAddress(7, 8, 9, 10, 11, 12),
                       target_protocol_address: Ipv4Addr::new(192, 168, 0, 2),
                   }),
               });
    assert_eq!(parser.parse(&input[..27], None), Outcome::Incomplete(Needed::Size(1)));
    let mut bad = input;
    bad[7] = 9;
    assert_eq!(parser.parse(&bad, None), rejected(RejectReason::UnknownValue, 6));
    bad[1] = 7;
    assert_eq!(parser.parse(&bad, None), rejected(RejectReason::UnknownValue, 0));
}

#[test]
fn icmp_echo_takes_the_whole_input() {
    let mut parser = IcmpParser;
    let input = [8, 0, 0x12, 0x34, 0x00, 0x07, 0x01, 0x02, b'a', b'b', b'c'];
    assert_eq!(parser.parse(&input, None),
               Outcome::Decoded {
                   consumed: 11,
                   layer: Layer::Icmp(IcmpPacket {
                       message_type: IcmpType::EchoRequest,
                       code: 0,
                       checksum: 0x1234,
                       data: IcmpData::Echo(IcmpEcho {
                           identifier: 7,
                           sequence_number: 258,
                           payload: vec![b'a', b'b', b'c'],
                       }),
                   }),
               });
    assert_eq!(parser.parse(&input[..7], None), Outcome::Incomplete(Needed::Size(1)));
    assert_eq!(parser.parse(&input[..2], None), Outcome::Incomplete(Needed::Size(2)));
}

#[test]
fn icmp_other_types_take_four_octets() {
    let mut parser = IcmpParser;
    let input = [3, 1, 0xab, 0xcd, 0, 0, 0, 0, 9];
    assert_eq!(parser.parse(&input, None),
               Outcome::Decoded {
                   consumed: 4,
                   layer: Layer::Icmp(IcmpPacket {
                       message_type: IcmpType::DestinationUnreachable,
                       code: 1,
                       checksum: 0xabcd,
                       data: IcmpData::Other,
                   }),
               });
    assert_eq!(parser.parse(&[200, 0, 0, 0], None), rejected(RejectReason::UnknownValue, 0));
}

#[test]
fn icmpv6_echo_decodes() {
    let mut parser = Icmpv6Parser;
    let input = [0x80, 0x00, 0x41, 0x5c, 0x02, 0x00, 0x0a, 0x00, 0x61, 0x62];
    assert_eq!(parser.parse(&input, None),
               Outcome::Decoded {
                   consumed: 10,
                   layer: Layer::Icmpv6(Icmpv6Packet {
                       message_type: Icmpv6Type::EchoRequest,
                       code: 0,
                       checksum: 0x415c,
                       data: IcmpData::Echo(IcmpEcho {
                           identifier: 0x200,
                           sequence_number: 0xa00,
                           payload: vec![0x61, 0x62],
                       }),
                   }),
               });
    assert_eq!(parser.parse(&[77, 0, 0, 0], None), rejected(RejectReason::UnknownValue, 0));
}

#[test]
fn tcp_flags_and_reserved_bits() {
    let mut parser = TcpParser;
    let mut input = Vec::from(&TCP_HEADER[..20]);
    input[12] = 0x5a;
    input[13] = 0b1010_1010;
    let header = match parser.parse(&input, None) {
        Outcome::Decoded { consumed: 20, layer: Layer::Tcp(packet) } => packet.header,
        other => panic!("no TCP header: {:?}", other),
    };
    assert_eq!(header.data_offset, 20);
    assert_eq!(header.reserved, 0b10_1010);
    assert_eq!((header.flag_urg, header.flag_ack, header.flag_psh),
               (true, false, true));
    assert_eq!((header.flag_rst, header.flag_syn, header.flag_fin),
               (false, true, false));
    assert_eq!(header.options, Vec::<u8>::new());
}

#[test]
fn tcp_short_input_and_short_data_offset() {
    let mut parser = TcpParser;
    assert_eq!(parser.parse(&TCP_HEADER[..19], None), Outcome::Incomplete(Needed::Size(1)));
    assert_eq!(parser.parse(&TCP_HEADER[..20], None), Outcome::Incomplete(Needed::Size(12)));
    assert_eq!(parser.parse(&TCP_HEADER[..31], None), Outcome::Incomplete(Needed::Size(1)));
    assert!(matches!(parser.parse(TCP_HEADER, None), Outcome::Decoded { consumed: 32, .. }));
    let mut input = Vec::from(TCP_HEADER);
    input[12] = 0x40;
    assert_eq!(parser.parse(&input, None), rejected(RejectReason::Length, 12));
}

#[test]
fn udp_short_input_names_the_missing_octets() {
    let mut parser = UdpParser;
    let header = [0x00, 0x35, 0xc7, 0xde, 0x00, 0x92, 0xad, 0x1b];
    for len in 0..8usize {
        assert_eq!(parser.parse(&header[..len], None), Outcome::Incomplete(Needed::Size(8 - len)));
    }
}

#[test]
fn tls_header_only_is_consumed() {
    let mut parser = TlsParser;
    let input = [23, 3, 3, 0x01, 0x02, 0xaa, 0xbb];
    assert!(matches!(parser.parse(&input, None), Outcome::Decoded { consumed: 5, .. }));
    assert_eq!(parser.parse(&input[..4], None), Outcome::Incomplete(Needed::Size(1)));
    assert_eq!(parser.parse(&[], None), Outcome::Incomplete(Needed::Size(5)));
    assert_eq!(parser.parse(&[19], None), rejected(RejectReason::UnknownValue, 0));
}

#[test]
fn ntp_without_authenticator() {
    let mut parser = NtpParser;
    let mut input = vec![0xe3, 2, 6, 0xec];
    input.extend_from_slice(&[0, 0, 0, 1, 0, 0, 0, 2, 0x4c, 0x4f, 0x43, 0x4c]);
    input.extend_from_slice(&[0, 0, 0, 0, 0, 0, 0, 1]);
    input.extend_from_slice(&[0, 0, 0, 0, 0, 0, 1, 0]);
    input.extend_from_slice(&[0, 0, 0, 0, 0, 1, 0, 0]);
    input.extend_from_slice(&[1, 2, 3, 4, 5, 6, 7, 8]);
    input.extend_from_slice(&[0xaa; 19]);
    assert_eq!(parser.parse(&input, None),
               Outcome::Decoded {
                   consumed: 48,
                   layer: Layer::Ntp(NtpPacket {
                       li: 3,
                       version: 4,
                       mode: 3,
                       stratum: 2,
                       poll: 6,
                       precision: 0xec,
                       root_delay: 1,
                       root_dispersion: 2,
                       ref_id: 0x4c4f434c,
                       ts_ref: 1,
                       ts_orig: 256,
                       ts_recv: 65536,
                       ts_xmit: 0x0102030405060708,
                       auth: None,
                   }),
               });
    assert_eq!(parser.parse(&input[..47], None), Outcome::Incomplete(Needed::Size(1)));
    input.push(0xaa);
    assert!(matches!(parser.parse(&input, None), Outcome::Decoded { consumed: 68, .. }));
}

#[test]
fn decoders_name_their_protocol() {
    assert_eq!(Ipv4Parser.to_string(), "IPv4");
    assert_eq!(Ipv6Parser.to_string(), "IPv6");
    assert_eq!(TlsParser.to_string(), "TLS");
    assert_eq!(EthernetParser.to_string(), "Ethernet");
    assert_eq!(UdpParser.to_string(), "UDP");
}

#[test]
fn outcome_hands_out_what_is_left() {
    let mut parser = UdpParser;
    let input = [0x00, 0x35, 0xc7, 0xde, 0x00, 0x92, 0xad, 0x1b, 7, 8, 9];
    let outcome = parser.parse(&input, None);
    assert_eq!(outcome.remaining(&input), Some(&input[8..]));
    assert_eq!(outcome.remaining(&input[..8]), Some(&input[..0]));
    assert_eq!(outcome.remaining(&input[..7]), None);
    assert_eq!(parser.parse(&input[..3], None).remaining(&input), None);
    assert_eq!(rejected(RejectReason::Version, 0).remaining(&input), None);
}
