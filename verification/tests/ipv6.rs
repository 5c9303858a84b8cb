use peel_ip::prelude::{IpProtocol, Ipv6Addr, Ipv6Packet, Ipv6Parser, Layer, Outcome};

static IPV6_HEADER: &'static [u8] = &[0x60, 0x00, 0x00, 0x00, 0x00, 0x2f, 0x06, 0x40, 0x3f, 0xfe, 0x05, 0x07, 0x00,
                                      0x00, 0x00, 0x01, 0x02, 0x00, 0x86, 0xff, 0xfe, 0x05, 0x80, 0xda, 0x3f, 0xfe,
                                      0x05, 0x01, 0x04, 0x10, 0x00, 0x00, 0x02, 0xc0, 0xdf, 0xff, 0xfe, 0x47, 0x03,
                                      0x3e];

fn ipv6_of(outcome: Outcome) -> Option<Ipv6Packet> {
    match outcome {
        Outcome::Decoded { layer: Layer::Ipv6(packet), .. } => Some(packet),
        _ => None,
    }
}

fn is_err(outcome: &Outcome) -> bool {
    !matches!(outcome, Outcome::Decoded { .. })
}

#[test]
fn parse_ipv6_success() {
    let mut parser = Ipv6Parser;
    println!("{:?}", parser);
    let res = ipv6_of(parser.parse(IPV6_HEADER, None));
    assert_eq!(Some(Ipv6Packet {
                   version: 6,
                   traffic_class: 0,
                   flow_label: 0,
                   payload_length: 47,
                   next_header: IpProtocol::Tcp,
                   hop_limit: 64,
                   src: Ipv6Addr::new(0x3ffe, 0x507, 0, 1, 0x200, 0x86ff, 0xfe05, 0x80da),
                   dst: Ipv6Addr::new(0x3ffe, 0x501, 0x410, 0, 0x2c0, 0xdfff, 0xfe47, 0x33e),
               }),
               res);
}

#[test]
fn parse_ipv6_success_ipprotocols() {
    let mut parser = Ipv6Parser;
    // TCP
    let mut input = Vec::from(IPV6_HEADER);
    ipv6_of(parser.parse(&input, None)).unwrap();

    // UDP
    input[6] = 17;
    ipv6_of(parser.parse(&input, None)).unwrap();
}

#[test]
fn parse_ipv6_failure_wrong_version() {
    let mut parser = Ipv6Parser;
    let mut input = Vec::from(IPV6_HEADER);
    input[0] = 0x55;
    assert!(is_err(&parser.parse(&input, None)));
}

#[test]
fn parse_ipv6_failure_wrong_ipprotocol() {
    let mut parser = Ipv6Parser;
    let mut input = Vec::from(IPV6_HEADER);
    input[6] = 0xff;
    assert!(is_err(&parser.parse(&input, None)));
}

#[test]
fn parse_ipv6_failure_too_small() {
    let mut parser = Ipv6Parser;
    let mut input = Vec::from(IPV6_HEADER);
    input.pop();
    assert!(is_err(&parser.parse(&input, None)));
}
