use vless_relay::vless::{
    get_vless_response_header, process_vless_header, DecodeError, VlessAddress, VlessCommand,
};

const ID: [u8; 16] = [0, 1, 2, 3, 4, 5, 6, 7, 8, 9, 10, 11, 12, 13, 14, 15];

fn domain_header(trailing: &[u8]) -> Vec<u8> {
    let mut b: Vec<u8> = Vec::new();
    b.push(0x00); // version
    b.extend_from_slice(&ID); // identity
    b.push(0x00); // opt_len = 0
    b.push(0x01); // command = Tcp
    b.push(0x01); // port 443, big endian
    b.push(0xbb);
    b.push(0x02); // address type = domain
    b.push(0x0b); // domain length 11
    b.extend_from_slice(b"example.com");
    b.extend_from_slice(trailing);
    b
}

#[test]
fn decode_tcp_domain_with_trailing() {
    let bytes = domain_header(b"GET /");
    let h = process_vless_header(&bytes, &ID).unwrap();
    assert_eq!(h.version, 0);
    assert_eq!(h.command, VlessCommand::Tcp);
    assert_eq!(h.port, 443);
    assert!(h.opt_data.is_empty());
    match &h.address {
        VlessAddress::DomainName(d) => assert_eq!(d, "example.com"),
        _ => panic!("expected a domain name"),
    }
    assert_eq!(h.len, 34);
    assert_eq!(&bytes[h.len..], b"GET /");
}

#[test]
fn decode_is_deterministic() {
    let bytes = domain_header(b"payload");
    let a = process_vless_header(&bytes, &ID).unwrap();
    let b = process_vless_header(&bytes, &ID).unwrap();
    assert_eq!(a.version, b.version);
    assert_eq!(a.command, b.command);
    assert_eq!(a.port, b.port);
    assert_eq!(a.opt_data, b.opt_data);
    assert_eq!(a.len, b.len);
    assert_eq!(a.address.to_text(), b.address.to_text());
}

#[test]
fn trailing_bytes_leave_consumed_length_alone() {
    let exact = domain_header(b"");
    let noisy = domain_header(&[0xde, 0xad, 0xbe, 0xef, 0x00, 0x01]);
    let a = process_vless_header(&exact, &ID).unwrap();
    let b = process_vless_header(&noisy, &ID).unwrap();
    assert_eq!(a.len, exact.len());
    assert_eq!(b.len, exact.len());
    assert_eq!(a.port, b.port);
    assert_eq!(a.address.to_text(), b.address.to_text());
}

#[test]
fn nonzero_version_rejected() {
    for v in [1u8, 2, 0x80, 0xff] {
        let mut bytes = domain_header(b"");
        bytes[0] = v;
        match process_vless_header(&bytes, &ID) {
            Err(DecodeError::UnsupportedVersion) => {}
            _ => panic!("a nonzero version byte must be rejected"),
        }
    }
}

#[test]
fn identity_bit_flip_rejected() {
    let bytes = domain_header(b"");
    for i in 0..16 {
        for k in 0..8 {
            let mut id = ID;
            id[i] ^= 1 << k;
            match process_vless_header(&bytes, &id) {
                Err(DecodeError::IdentityMismatch) => {}
                _ => panic!("a flipped identity bit must be rejected"),
            }
        }
    }
}

#[test]
fn truncation_always_too_short() {
    let bytes = domain_header(b"");
    for t in 0..bytes.len() {
        match process_vless_header(&bytes[..t], &ID) {
            Err(DecodeError::HeaderTooShort) => {}
            _ => panic!("a truncated header must be too short"),
        }
    }
}

#[test]
fn unsupported_command_rejected() {
    let mut bytes = domain_header(b"");
    bytes[18] = 0x03;
    match process_vless_header(&bytes, &ID) {
        Err(DecodeError::UnsupportedCommand) => {}
        _ => panic!("command byte 3 must be rejected"),
    }
}

#[test]
fn invalid_address_type_rejected() {
    let mut bytes = domain_header(b"");
    bytes[21] = 0x04;
    match process_vless_header(&bytes, &ID) {
        Err(DecodeError::InvalidAddressType) => {}
        _ => panic!("address type 4 must be rejected"),
    }
}

#[test]
fn malformed_utf8_domain_rejected() {
    let mut bytes = domain_header(b"");
    bytes[24] = 0xff; // inside "example.com"
    match process_vless_header(&bytes, &ID) {
        Err(DecodeError::InvalidDomainName) => {}
        _ => panic!("invalid UTF-8 in the domain must be rejected"),
    }
}

#[test]
fn opt_data_is_carried_verbatim() {
    let mut b: Vec<u8> = Vec::new();
    b.push(0x00);
    b.extend_from_slice(&ID);
    b.push(0x03); // opt_len = 3
    b.extend_from_slice(&[0xaa, 0xbb, 0xcc]);
    b.push(0x01); // Tcp
    b.extend_from_slice(&[0x00, 0x35]); // port 53
    b.push(0x01); // IPv4
    b.extend_from_slice(&[10, 0, 0, 1]);
    let h = process_vless_header(&b, &ID).unwrap();
    assert_eq!(h.opt_data, vec![0xaa, 0xbb, 0xcc]);
    assert_eq!(h.port, 53);
    assert_eq!(h.len, b.len());
    assert_eq!(h.address.to_text(), "10.0.0.1");
}

#[test]
fn oversized_opt_length_too_short() {
    let mut bytes = domain_header(b"");
    bytes[17] = 200; // opt_len far beyond the buffer
    match process_vless_header(&bytes, &ID) {
        Err(DecodeError::HeaderTooShort) => {}
        _ => panic!("an opt length past the buffer must be too short"),
    }
}

#[test]
fn ipv4_round_trip() {
    let mut b: Vec<u8> = Vec::new();
    b.push(0x00);
    b.extend_from_slice(&ID);
    b.push(0x00);
    b.push(0x01);
    b.extend_from_slice(&[0x01, 0xbb]);
    b.push(0x01); // IPv4
    b.extend_from_slice(&[0xc0, 0xa8, 0x01, 0x01]);
    let h = process_vless_header(&b, &ID).unwrap();
    assert_eq!(h.address.to_text(), "192.168.1.1");
    assert_eq!(h.len, 26);
}

#[test]
fn ipv6_round_trip() {
    let mut b: Vec<u8> = Vec::new();
    b.push(0x00);
    b.extend_from_slice(&ID);
    b.push(0x00);
    b.push(0x01);
    b.extend_from_slice(&[0x01, 0xbb]);
    b.push(0x03); // IPv6
    b.extend_from_slice(&[0x20, 0x01, 0x0d, 0xb8, 0, 0, 0, 0, 0, 0, 0, 0, 0, 0, 0, 1]);
    let h = process_vless_header(&b, &ID).unwrap();
    assert_eq!(h.address.to_text(), "2001:db8::1");
    assert_eq!(h.len, 38);
}

#[test]
fn ipv6_renderings() {
    let cases: [([u8; 16], &str); 6] = [
        ([0; 16], "::"),
        ([0, 0, 0, 0, 0, 0, 0, 0, 0, 0, 0, 0, 0, 0, 0, 1], "::1"),
        (
            [0, 0, 0, 0, 0, 0, 0, 0, 0, 0, 0xff, 0xff, 192, 168, 1, 1],
            "::ffff:192.168.1.1",
        ),
        (
            [0, 1, 0, 2, 0, 3, 0, 4, 0, 5, 0, 6, 0, 7, 0, 8],
            "1:2:3:4:5:6:7:8",
        ),
        (
            [0, 1, 0, 0, 0, 1, 0, 1, 0, 1, 0, 1, 0, 1, 0, 1],
            "1:0:1:1:1:1:1:1",
        ),
        (
            [0, 1, 0, 0, 0, 0, 0, 1, 0, 0, 0, 0, 0, 1, 0, 1],
            "1::1:0:0:1:1",
        ),
    ];
    for (bytes, expected) in cases {
        let a = VlessAddress::IPv6(bytes.to_vec());
        assert_eq!(a.to_text(), expected);
    }
}

#[test]
fn multibyte_utf8_domain_decodes_to_its_characters() {
    let domain = "bücher.example"; // 15 bytes of UTF-8, 14 characters
    let mut b: Vec<u8> = Vec::new();
    b.push(0x00);
    b.extend_from_slice(&ID);
    b.push(0x00);
    b.push(0x01);
    b.extend_from_slice(&[0x01, 0xbb]);
    b.push(0x02);
    b.push(domain.len() as u8);
    b.extend_from_slice(domain.as_bytes());
    let h = process_vless_header(&b, &ID).unwrap();
    match &h.address {
        VlessAddress::DomainName(d) => {
            assert_eq!(d, domain);
            assert_eq!(d.chars().count(), 14);
        }
        _ => panic!("expected a domain name"),
    }
    assert_eq!(h.len, b.len());
}

#[test]
fn domain_rendering_is_literal() {
    let a = VlessAddress::DomainName("Example.COM".to_string());
    assert_eq!(a.to_text(), "Example.COM");
}

#[test]
fn empty_domain_needs_the_minimum_length() {
    // version, identity, opt_len 0, Tcp, port 80, domain of length 0
    let mut b: Vec<u8> = Vec::new();
    b.push(0x00);
    b.extend_from_slice(&ID);
    b.push(0x00);
    b.push(0x01);
    b.extend_from_slice(&[0x00, 0x50]);
    b.push(0x02);
    b.push(0x00);
    assert_eq!(b.len(), 23);
    // structurally complete, but below the 26-byte minimum
    match process_vless_header(&b, &ID) {
        Err(DecodeError::HeaderTooShort) => {}
        _ => panic!("23 bytes are below the minimum header length"),
    }
    // padded past the minimum it decodes, and the padding is leftover payload
    b.extend_from_slice(&[0xee, 0xee, 0xee]);
    let h = process_vless_header(&b, &ID).unwrap();
    assert_eq!(h.len, 23);
    match &h.address {
        VlessAddress::DomainName(d) => assert_eq!(d, ""),
        _ => panic!("expected a domain name"),
    }
    assert_eq!(&b[h.len..], &[0xee, 0xee, 0xee]);
}

#[test]
fn response_header_is_fixed() {
    assert_eq!(get_vless_response_header(), vec![0x00, 0x00]);
}
