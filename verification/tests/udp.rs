use peel_ip::prelude::{Layer, Needed, Outcome, Parser, UdpHeader, UdpPacket, UdpParser};

static UDP_HEADER: &'static [u8] = &[0x00, 0x35, 0xc7, 0xde, 0x00, 0x92, 0xad, 0x1b];

#[test]
fn udp_parser_variant() {
    let parser = Parser::Udp;
    println!("{:?}", parser);
}

#[test]
fn parse_udp_success() {
    let mut parser = UdpParser;
    let res = match parser.parse(UDP_HEADER, None) {
        Outcome::Decoded { consumed, layer } => (consumed, layer),
        other => panic!("not decoded: {:?}", other),
    };
    println!("{:?}", res.0);
    assert_eq!(Layer::Udp(UdpPacket {
                   header: UdpHeader {
                       source_port: 53,
                       dest_port: 51166,
                       length: 146,
                       checksum: 44315,
                   },
               }),
               res.1);
}

#[test]
fn parse_udp_failure_too_small() {
    let mut parser = UdpParser;
    let mut input = Vec::from(UDP_HEADER);
    input.pop();
    let res = parser.parse(&input, None);
    assert_eq!(res, Outcome::Incomplete(Needed::Size(1)));
}
