//! Binary codec for the VLESS connection-request header: data model,
//! decoding with identity authentication, and the fixed acceptance response.

use vstd::prelude::*;
use vstd::slice::{slice_subrange, slice_to_vec};
use vstd::utf8::{decode_utf8, valid_utf8};

verus! {

/// The single protocol version this library accepts.
pub const VLESS_VERSION: u8 = 0;

/// Why a header failed to decode. Every gate of the decoder fails closed
/// with exactly one of these.
#[derive(Debug, Clone, Copy, PartialEq, Eq, Structural)]
pub enum DecodeError {
    /// The buffer ends before the field the decoder is about to read.
    HeaderTooShort,
    /// The version byte is not `VLESS_VERSION`.
    UnsupportedVersion,
    /// The 16 identity bytes differ from the expected identity.
    IdentityMismatch,
    /// The command byte is neither 1 (Tcp) nor 2 (Udp).
    UnsupportedCommand,
    /// The address-type byte is not 1, 2 or 3.
    InvalidAddressType,
    /// The domain-name bytes are not valid UTF-8.
    InvalidDomainName,
}

/// Parameters of a shareable provisioning URI for a client. Used out of
/// band, not on the relay hot path: the library decides which query pairs
/// the URI carries; assembling and percent-encoding the URI itself is left
/// to the caller.
#[derive(Debug, Clone)]
pub struct VlessUrl {
    pub uuid: String,
    pub domain: String,
    pub port: u16,
    pub encryption: Option<String>,
    pub security: Option<String>,
    pub sni: Option<String>,
    pub alpn: Option<String>,
    pub transport_type: Option<String>,
    pub host: Option<String>,
    pub path: Option<String>,
    pub comment: String,
}

/// The query pair a present optional field contributes, under its key.
pub open spec fn opt_pair(key: Seq<char>, v: Option<String>) -> Seq<(Seq<char>, Seq<char>)> {
    match v {
        Some(s) => seq![(key, s@)],
        None => Seq::empty(),
    }
}

/// The query pairs of the provisioning URI, in order: one pair per optional
/// field that is present, under its standard key.
pub open spec fn spec_query_pairs(u: VlessUrl) -> Seq<(Seq<char>, Seq<char>)> {
    opt_pair("encryption"@, u.encryption) + opt_pair("security"@, u.security) + opt_pair(
        "sni"@,
        u.sni,
    ) + opt_pair("alpn"@, u.alpn) + opt_pair("type"@, u.transport_type) + opt_pair("host"@, u.host)
        + opt_pair("path"@, u.path)
}

impl VlessUrl {
    /// The query parameters of the provisioning URI, in order.
    pub fn query_pairs(&self) -> (r: Vec<(String, String)>)
        ensures
            r@.map_values(|p: (String, String)| (p.0@, p.1@)) == spec_query_pairs(*self),
    {
        let mut r: Vec<(String, String)> = Vec::new();
        if let Some(v) = &self.encryption {
            r.push(("encryption".to_owned(), v.clone()));
        }
        proof {
            assert(r@.map_values(|p: (String, String)| (p.0@, p.1@)) =~= opt_pair(
                "encryption"@,
                self.encryption,
            ));
        }
        if let Some(v) = &self.security {
            r.push(("security".to_owned(), v.clone()));
        }
        proof {
            assert(r@.map_values(|p: (String, String)| (p.0@, p.1@)) =~= opt_pair(
                "encryption"@,
                self.encryption,
            ) + opt_pair("security"@, self.security));
        }
        if let Some(v) = &self.sni {
            r.push(("sni".to_owned(), v.clone()));
        }
        proof {
            assert(r@.map_values(|p: (String, String)| (p.0@, p.1@)) =~= opt_pair(
                "encryption"@,
                self.encryption,
            ) + opt_pair("security"@, self.security) + opt_pair("sni"@, self.sni));
        }
        if let Some(v) = &self.alpn {
            r.push(("alpn".to_owned(), v.clone()));
        }
        proof {
            assert(r@.map_values(|p: (String, String)| (p.0@, p.1@)) =~= opt_pair(
                "encryption"@,
                self.encryption,
            ) + opt_pair("security"@, self.security) + opt_pair("sni"@, self.sni) + opt_pair(
                "alpn"@,
                self.alpn,
            ));
        }
        if let Some(v) = &self.transport_type {
            r.push(("type".to_owned(), v.clone()));
        }
        proof {
            assert(r@.map_values(|p: (String, String)| (p.0@, p.1@)) =~= opt_pair(
                "encryption"@,
                self.encryption,
            ) + opt_pair("security"@, self.security) + opt_pair("sni"@, self.sni) + opt_pair(
                "alpn"@,
                self.alpn,
            ) + opt_pair("type"@, self.transport_type));
        }
        if let Some(v) = &self.host {
            r.push(("host".to_owned(), v.clone()));
        }
        proof {
            assert(r@.map_values(|p: (String, String)| (p.0@, p.1@)) =~= opt_pair(
                "encryption"@,
                self.encryption,
            ) + opt_pair("security"@, self.security) + opt_pair("sni"@, self.sni) + opt_pair(
                "alpn"@,
                self.alpn,
            ) + opt_pair("type"@, self.transport_type) + opt_pair("host"@, self.host));
        }
        if let Some(v) = &self.path {
            r.push(("path".to_owned(), v.clone()));
        }
        proof {
            assert(r@.map_values(|p: (String, String)| (p.0@, p.1@)) =~= spec_query_pairs(*self));
        }
        r
    }
}

impl Default for VlessUrl {
    /// All fields empty, absent or zero.
    fn default() -> (r: VlessUrl)
        ensures
            r.uuid@ == Seq::<char>::empty(),
            r.domain@ == Seq::<char>::empty(),
            r.port == 0,
            r.encryption is None,
            r.security is None,
            r.sni is None,
            r.alpn is None,
            r.transport_type is None,
            r.host is None,
            r.path is None,
            r.comment@ == Seq::<char>::empty(),
    {
        VlessUrl {
            uuid: String::new(),
            domain: String::new(),
            port: 0,
            encryption: None,
            security: None,
            sni: None,
            alpn: None,
            transport_type: None,
            host: None,
            path: None,
            comment: String::new(),
        }
    }
}

/// The requested tunnelling mode.
#[derive(Debug, Clone, Copy, PartialEq, Eq, Structural)]
pub enum VlessCommand {
    Tcp,
    Udp,
}

/// A network endpoint, as carried in the header: raw IPv4 or IPv6 bytes, or
/// a domain name.
#[derive(Debug, Clone)]
pub enum VlessAddress {
    IPv4(Vec<u8>),
    DomainName(String),
    IPv6(Vec<u8>),
}

/// Mathematical model of an address.
#[verifier::ext_equal]
pub enum SpecAddress {
    IPv4(Seq<u8>),
    DomainName(Seq<char>),
    IPv6(Seq<u8>),
}

impl View for VlessAddress {
    type V = SpecAddress;

    open spec fn view(&self) -> SpecAddress {
        match self {
            VlessAddress::IPv4(b) => SpecAddress::IPv4(b@),
            VlessAddress::DomainName(s) => SpecAddress::DomainName(s@),
            VlessAddress::IPv6(b) => SpecAddress::IPv6(b@),
        }
    }
}

impl VlessAddress {
    /// The IPv4 variant holds exactly 4 bytes and the IPv6 variant exactly 16.
    pub open spec fn wf(&self) -> bool {
        match self {
            VlessAddress::IPv4(b) => b@.len() == 4,
            VlessAddress::DomainName(_) => true,
            VlessAddress::IPv6(b) => b@.len() == 16,
        }
    }
}

/// A decoded connection request.
#[derive(Debug)]
pub struct VlessHeader {
    pub version: u8,
    pub command: VlessCommand,
    pub port: u16,
    pub opt_data: Vec<u8>,
    pub address: VlessAddress,
    /// Number of bytes of the input buffer the header occupied; everything
    /// beyond it is application payload.
    pub len: usize,
}

/// Mathematical model of a decoded header.
#[verifier::ext_equal]
pub struct SpecHeader {
    pub version: u8,
    pub command: VlessCommand,
    pub port: u16,
    pub opt_data: Seq<u8>,
    pub address: SpecAddress,
    pub len: int,
}

impl View for VlessHeader {
    type V = SpecHeader;

    open spec fn view(&self) -> SpecHeader {
        SpecHeader {
            version: self.version,
            command: self.command,
            port: self.port,
            opt_data: self.opt_data@,
            address: self.address@,
            len: self.len as int,
        }
    }
}

impl VlessHeader {
    pub open spec fn wf(&self) -> bool {
        self.address.wf()
    }
}

/// The 16-bit value carried big-endian in two bytes.
pub open spec fn spec_port(hi: u8, lo: u8) -> u16 {
    (hi * 256 + lo) as u16
}

/// Decoding of the address block: `p` is the position of the address-type
/// byte. On success, the address together with the position one past its
/// last byte.
pub open spec fn spec_decode_address(b: Seq<u8>, p: int) -> Result<(SpecAddress, int), DecodeError> {
    if p >= b.len() {
        Err(DecodeError::HeaderTooShort)
    } else if b[p] == 1 {
        if p + 5 > b.len() {
            Err(DecodeError::HeaderTooShort)
        } else {
            Ok((SpecAddress::IPv4(b.subrange(p + 1, p + 5)), p + 5))
        }
    } else if b[p] == 2 {
        if p + 2 > b.len() {
            Err(DecodeError::HeaderTooShort)
        } else {
            let dl = b[p + 1] as int;
            if p + 2 + dl > b.len() {
                Err(DecodeError::HeaderTooShort)
            } else if !valid_utf8(b.subrange(p + 2, p + 2 + dl)) {
                Err(DecodeError::InvalidDomainName)
            } else {
                Ok((SpecAddress::DomainName(decode_utf8(b.subrange(p + 2, p + 2 + dl))), p + 2 + dl))
            }
        }
    } else if b[p] == 3 {
        if p + 17 > b.len() {
            Err(DecodeError::HeaderTooShort)
        } else {
            Ok((SpecAddress::IPv6(b.subrange(p + 1, p + 17)), p + 17))
        }
    } else {
        Err(DecodeError::InvalidAddressType)
    }
}

/// Decoding of a whole connection-request header from the prefix of `b`,
/// authenticated against the expected identity `id`. Each gate fails closed,
/// in the order the wire format is laid out.
pub open spec fn spec_decode(b: Seq<u8>, id: Seq<u8>) -> Result<SpecHeader, DecodeError> {
    if b.len() < 26 {
        Err(DecodeError::HeaderTooShort)
    } else if b[0] != VLESS_VERSION {
        Err(DecodeError::UnsupportedVersion)
    } else if b.subrange(1, 17) != id {
        Err(DecodeError::IdentityMismatch)
    } else {
        let opt_len = b[17] as int;
        if b.len() < 18 + opt_len {
            Err(DecodeError::HeaderTooShort)
        } else {
            let c = 18 + opt_len;
            if c >= b.len() {
                Err(DecodeError::HeaderTooShort)
            } else if b[c] != 1 && b[c] != 2 {
                Err(DecodeError::UnsupportedCommand)
            } else if c + 3 > b.len() {
                Err(DecodeError::HeaderTooShort)
            } else {
                let command = if b[c] == 1 {
                    VlessCommand::Tcp
                } else {
                    VlessCommand::Udp
                };
                match spec_decode_address(b, c + 3) {
                    Err(e) => Err(e),
                    Ok((address, end)) => Ok(
                        SpecHeader {
                            version: b[0],
                            command,
                            port: spec_port(b[c + 1], b[c + 2]),
                            opt_data: b.subrange(18, c),
                            address,
                            len: end,
                        },
                    ),
                }
            }
        }
    }
}

/// Relies on `String::from_utf8`: it returns `Ok` exactly on valid UTF-8 and
/// then yields the string whose characters are the UTF-8 decoding of the
/// bytes, as `vstd::utf8` states that decoding.
#[verifier::external_body]
fn utf8_to_string(v: Vec<u8>) -> (r: Option<String>)
    ensures
        r is Some <==> valid_utf8(v@),
        r is Some ==> r.unwrap()@ == decode_utf8(v@),
{
    match String::from_utf8(v) {
        Ok(s) => Some(s),
        Err(_) => None,
    }
}

/// True exactly when bytes 1..17 of `b` equal the 16 expected identity
/// bytes. The comparison accumulates the differences over all 16 bytes
/// instead of leaving at the first mismatch, so its timing does not depend
/// on where a forged identity diverges.
fn identity_matches(b: &[u8], id: &[u8; 16]) -> (r: bool)
    requires
        b@.len() >= 17,
    ensures
        r <==> b@.subrange(1, 17) == id@,
{
    let mut diff: u8 = 0;
    let mut i: usize = 0;
    while i < 16
        invariant
            0 <= i <= 16,
            b@.len() >= 17,
            diff == 0 <==> (forall|j: int| 0 <= j < i ==> b@[1 + j] == id@[j]),
        decreases 16 - i,
    {
        let x = b[1 + i];
        let y = id[i];
        let d = diff;
        proof {
            assert(((x ^ y) == 0) == (x == y)) by (bit_vector);
            assert(((d | (x ^ y)) == 0) == (d == 0 && (x ^ y) == 0)) by (bit_vector);
        }
        diff = diff | (x ^ y);
        i += 1;
    }
    proof {
        assert(forall|j: int| 0 <= j < 16 ==> b@.subrange(1, 17)[j] == b@[1 + j]);
        if diff == 0 {
            assert(b@.subrange(1, 17) =~= id@);
        } else {
            let j = choose|j: int| 0 <= j < 16 && b@[1 + j] != id@[j];
            assert(b@.subrange(1, 17)[j] != id@[j]);
        }
    }
    diff == 0
}

/// A copy of `b[from..to]` as a fresh vector.
pub(crate) fn copy_range(b: &[u8], from: usize, to: usize) -> (r: Vec<u8>)
    requires
        from <= to <= b@.len(),
    ensures
        r@ == b@.subrange(from as int, to as int),
{
    slice_to_vec(slice_subrange(b, from, to))
}

/// Decode and authenticate a connection-request header from the prefix of
/// `header_bytes`. The result is exactly what `spec_decode` says for these
/// bytes and this identity; on success the consumed length never exceeds the
/// input length.
pub fn process_vless_header(header_bytes: &[u8], user_id: &[u8; 16]) -> (r: Result<
    VlessHeader,
    DecodeError,
>)
    ensures
        match r {
            Ok(h) => spec_decode(header_bytes@, user_id@) == Ok::<SpecHeader, DecodeError>(h@)
                && h.wf() && h.len <= header_bytes@.len(),
            Err(e) => spec_decode(header_bytes@, user_id@) == Err::<SpecHeader, DecodeError>(e),
        },
{
    let n = header_bytes.len();
    if n < 26 {
        return Err(DecodeError::HeaderTooShort);
    }
    let version = header_bytes[0];
    if version != VLESS_VERSION {
        return Err(DecodeError::UnsupportedVersion);
    }
    if !identity_matches(header_bytes, user_id) {
        return Err(DecodeError::IdentityMismatch);
    }
    let opt_len = header_bytes[17] as usize;
    if n - 18 < opt_len {
        return Err(DecodeError::HeaderTooShort);
    }
    let opt_data = copy_range(header_bytes, 18, 18 + opt_len);
    let c = 18 + opt_len;
    if c >= n {
        return Err(DecodeError::HeaderTooShort);
    }
    let command_byte = header_bytes[c];
    let command = match command_byte {
        1 => VlessCommand::Tcp,
        2 => VlessCommand::Udp,
        _ => {
            return Err(DecodeError::UnsupportedCommand);
        },
    };
    if n - c < 3 {
        return Err(DecodeError::HeaderTooShort);
    }
    let port = (header_bytes[c + 1] as u16) * 256 + (header_bytes[c + 2] as u16);
    let p = c + 3;
    if p >= n {
        return Err(DecodeError::HeaderTooShort);
    }
    let address_type = header_bytes[p];
    let (address, end): (VlessAddress, usize) = match address_type {
        1 => {
            if n - p < 5 {
                return Err(DecodeError::HeaderTooShort);
            }
            (VlessAddress::IPv4(copy_range(header_bytes, p + 1, p + 5)), p + 5)
        },
        2 => {
            if n - p < 2 {
                return Err(DecodeError::HeaderTooShort);
            }
            let dl = header_bytes[p + 1] as usize;
            if n - p - 2 < dl {
                return Err(DecodeError::HeaderTooShort);
            }
            let domain_bytes = copy_range(header_bytes, p + 2, p + 2 + dl);
            match utf8_to_string(domain_bytes) {
                Some(domain) => (VlessAddress::DomainName(domain), p + 2 + dl),
                None => {
                    return Err(DecodeError::InvalidDomainName);
                },
            }
        },
        3 => {
            if n - p < 17 {
                return Err(DecodeError::HeaderTooShort);
            }
            (VlessAddress::IPv6(copy_range(header_bytes, p + 1, p + 17)), p + 17)
        },
        _ => {
            return Err(DecodeError::InvalidAddressType);
        },
    };
    let h = VlessHeader { version, command, port, opt_data, address, len: end };
    proof {
        let d = spec_decode(header_bytes@, user_id@);
        assert(d is Ok);
        assert(d.unwrap() =~= h@);
    }
    Ok(h)
}

/// Decoding is deterministic: any two results of decoding the same bytes
/// against the same expected identity (each pinned to `spec_decode` by the
/// decoder's contract) are the same.
pub proof fn lemma_decode_deterministic(
    b: Seq<u8>,
    id: Seq<u8>,
    r1: Result<SpecHeader, DecodeError>,
    r2: Result<SpecHeader, DecodeError>,
)
    requires
        r1 == spec_decode(b, id),
        r2 == spec_decode(b, id),
    ensures
        r1 == r2,
{
}

/// A successfully decoded header never occupies more than the input buffer:
/// the consumed length always leaves a well-defined leftover payload.
pub proof fn lemma_consumed_length_bounds(b: Seq<u8>, id: Seq<u8>, h: SpecHeader)
    requires
        spec_decode(b, id) == Ok::<SpecHeader, DecodeError>(h),
    ensures
        0 <= h.len <= b.len(),
{
}

/// Any nonzero byte in the version position fails with `UnsupportedVersion`,
/// whatever the rest of the buffer holds.
pub proof fn lemma_version_gate(b: Seq<u8>, id: Seq<u8>)
    requires
        b.len() >= 26,
        b[0] != VLESS_VERSION,
    ensures
        spec_decode(b, id) == Err::<SpecHeader, DecodeError>(DecodeError::UnsupportedVersion),
{
}

/// Decoding against an expected identity that differs in a single bit from
/// the identity baked into the buffer fails with `IdentityMismatch`: the bit
/// `k` of byte `i` of `id` is flipped relative to the buffer's identity
/// bytes, and every other byte agrees.
pub proof fn lemma_identity_single_bit(b: Seq<u8>, id: Seq<u8>, i: int, k: u8)
    requires
        b.len() >= 26,
        b[0] == VLESS_VERSION,
        id.len() == 16,
        0 <= i < 16,
        k < 8,
        id[i] == b[1 + i] ^ (1u8 << k),
        forall|j: int| 0 <= j < 16 && j != i ==> id[j] == b[1 + j],
    ensures
        spec_decode(b, id) == Err::<SpecHeader, DecodeError>(DecodeError::IdentityMismatch),
{
    let x = b[1 + i];
    assert((x ^ (1u8 << k)) != x) by (bit_vector)
        requires
            k < 8,
    ;
    assert(b.subrange(1, 17)[i] == x);
    if b.subrange(1, 17) == id {
        assert(id[i] == x);
    }
    assert(b.subrange(1, 17) != id);
}

/// A decoded header is determined by the bytes it consumed: appending
/// arbitrary trailing bytes to an exactly-sized valid header changes nothing
/// of the result, and the consumed length stays the header's own length.
pub proof fn lemma_decode_ignores_trailing(b: Seq<u8>, tail: Seq<u8>, id: Seq<u8>, h: SpecHeader)
    requires
        spec_decode(b, id) == Ok::<SpecHeader, DecodeError>(h),
        h.len == b.len(),
    ensures
        spec_decode(b + tail, id) == Ok::<SpecHeader, DecodeError>(h),
{
    let e = b + tail;
    assert(forall|j: int| 0 <= j < b.len() ==> e[j] == b[j]);
    assert(e.subrange(1, 17) =~= b.subrange(1, 17));
    let opt_len = b[17] as int;
    let c = 18 + opt_len;
    assert(e.subrange(18, c) =~= b.subrange(18, c));
    let p = c + 3;
    let at = b[p];
    if at == 1 {
        assert(e.subrange(p + 1, p + 5) =~= b.subrange(p + 1, p + 5));
    } else if at == 2 {
        let dl = b[p + 1] as int;
        assert(e.subrange(p + 2, p + 2 + dl) =~= b.subrange(p + 2, p + 2 + dl));
    } else {
        assert(e.subrange(p + 1, p + 17) =~= b.subrange(p + 1, p + 17));
    }
    assert(spec_decode(e, id).unwrap() =~= h);
}

/// Truncating an exactly-sized valid header at any byte boundary before its
/// end always yields `HeaderTooShort`.
pub proof fn lemma_truncation_too_short(b: Seq<u8>, id: Seq<u8>, h: SpecHeader, t: int)
    requires
        spec_decode(b, id) == Ok::<SpecHeader, DecodeError>(h),
        h.len == b.len(),
        0 <= t < b.len(),
    ensures
        spec_decode(b.subrange(0, t), id) == Err::<SpecHeader, DecodeError>(
            DecodeError::HeaderTooShort,
        ),
{
    let s = b.subrange(0, t);
    assert(forall|j: int| 0 <= j < t ==> s[j] == b[j]);
    if t >= 26 {
        assert(s.subrange(1, 17) =~= b.subrange(1, 17));
        let opt_len = b[17] as int;
        let c = 18 + opt_len;
        if c + 3 <= t {
            assert(s.subrange(18, c) =~= b.subrange(18, c));
            let p = c + 3;
            if p < t {
                let at = b[p];
                if at == 2 {
                    if p + 2 <= t {
                        let dl = b[p + 1] as int;
                        assert(p + 2 + dl == b.len());
                        assert(p + 2 + dl > s.len());
                    }
                }
            }
        }
    }
}

/// Fixed two-byte acceptance response: the protocol version followed by a
/// zero length for the (unused) additional-instructions field.
pub fn get_vless_response_header() -> (r: Vec<u8>)
    ensures
        r@ == seq![VLESS_VERSION, 0u8],
{
    let mut r: Vec<u8> = Vec::new();
    r.push(VLESS_VERSION);
    r.push(0u8);
    proof {
        assert(r@ =~= seq![VLESS_VERSION, 0u8]);
    }
    r
}

} // verus!
