//! IPv4 addresses and their encoding as an address-family-tagged payload.
//!
//! Device-configuration calls carry an IPv4 address embedded in a generic
//! socket-address field: a 16-byte payload holding the address family tag,
//! a port (unused here), the four address octets, and zero padding. The
//! functions here convert between the two representations explicitly, with
//! bounds-checked field access.

use vstd::prelude::*;

verus! {

/// Length in bytes of the socket-address payload carried by a
/// device-configuration request.
pub const SOCKADDR_LEN: usize = 16;

/// First byte of the IPv4 address family tag as it appears in the payload
/// (the family word in host byte order, low byte first).
pub const AF_INET_BYTE0: u8 = 2;

/// Second byte of the IPv4 address family tag.
pub const AF_INET_BYTE1: u8 = 0;

/// An IPv4 address as four octets, most significant first.
#[derive(Clone, Copy, PartialEq, Eq, Structural, Debug)]
pub struct Ipv4 {
    pub o0: u8,
    pub o1: u8,
    pub o2: u8,
    pub o3: u8,
}

/// An IPv4 socket address: the model of the tunnel's datagram endpoints.
#[derive(Clone, Copy, PartialEq, Eq, Structural, Debug)]
pub struct SockAddrV4 {
    pub ip: Ipv4,
    pub port: u16,
}

/// The 16-byte socket-address payload that carries `a`: the IPv4 family
/// tag, a zero port, the four octets, and zero padding.
pub open spec fn spec_encode_sockaddr(a: Ipv4) -> Seq<u8> {
    seq![
        AF_INET_BYTE0,
        AF_INET_BYTE1,
        0u8,
        0u8,
        a.o0,
        a.o1,
        a.o2,
        a.o3,
        0u8,
        0u8,
        0u8,
        0u8,
        0u8,
        0u8,
        0u8,
        0u8,
    ]
}

/// Whether a payload is long enough to read and carries the IPv4 family tag.
pub open spec fn sockaddr_is_inet(b: Seq<u8>) -> bool {
    &&& b.len() >= 8
    &&& b[0] == AF_INET_BYTE0
    &&& b[1] == AF_INET_BYTE1
}

/// The IPv4 address stored in an IPv4-tagged payload.
pub open spec fn spec_sockaddr_ip(b: Seq<u8>) -> Ipv4
    recommends
        b.len() >= 8,
{
    Ipv4 { o0: b[4], o1: b[5], o2: b[6], o3: b[7] }
}

/// Encode an IPv4 address as the socket-address payload of a
/// device-configuration request.
pub fn encode_sockaddr(a: Ipv4) -> (out: Vec<u8>)
    ensures
        out@ == spec_encode_sockaddr(a),
        out@.len() == SOCKADDR_LEN,
{
    let mut out: Vec<u8> = Vec::new();
    out.push(AF_INET_BYTE0);
    out.push(AF_INET_BYTE1);
    out.push(0u8);
    out.push(0u8);
    out.push(a.o0);
    out.push(a.o1);
    out.push(a.o2);
    out.push(a.o3);
    let mut i: usize = 8;
    while i < SOCKADDR_LEN
        invariant
            8 <= i <= SOCKADDR_LEN,
            out@.len() == i,
            out@ == spec_encode_sockaddr(a).take(i as int),
        decreases SOCKADDR_LEN - i,
    {
        out.push(0u8);
        i = i + 1;
        assert(out@ =~= spec_encode_sockaddr(a).take(i as int));
    }
    assert(out@ =~= spec_encode_sockaddr(a));
    out
}

/// Why a socket-address payload could not be decoded as IPv4.
#[derive(Clone, Copy, PartialEq, Eq, Structural, Debug)]
pub enum DecodeError {
    /// The payload is too short to hold a family tag and four octets.
    ShortPayload,
    /// The family tag is not the IPv4 family.
    WrongFamily,
}

/// Decode the IPv4 address out of a socket-address payload, checking the
/// length and the family tag before any field is read.
pub fn decode_sockaddr(b: &Vec<u8>) -> (r: Result<Ipv4, DecodeError>)
    ensures
        b@.len() < 8 ==> r == Err::<Ipv4, DecodeError>(DecodeError::ShortPayload),
        b@.len() >= 8 && !sockaddr_is_inet(b@) ==> r == Err::<Ipv4, DecodeError>(
            DecodeError::WrongFamily,
        ),
        sockaddr_is_inet(b@) ==> r == Ok::<Ipv4, DecodeError>(spec_sockaddr_ip(b@)),
{
    if b.len() < 8 {
        Err(DecodeError::ShortPayload)
    } else if *b.get(0).unwrap() != AF_INET_BYTE0 || *b.get(1).unwrap() != AF_INET_BYTE1 {
        Err(DecodeError::WrongFamily)
    } else {
        Ok(
            Ipv4 {
                o0: *b.get(4).unwrap(),
                o1: *b.get(5).unwrap(),
                o2: *b.get(6).unwrap(),
                o3: *b.get(7).unwrap(),
            },
        )
    }
}

/// Law: encoding an IPv4 address and decoding the payload gives the
/// address back; the encoded payload always carries the IPv4 family tag.
pub proof fn lemma_sockaddr_round_trip(a: Ipv4)
    ensures
        sockaddr_is_inet(spec_encode_sockaddr(a)),
        spec_sockaddr_ip(spec_encode_sockaddr(a)) == a,
{
}

} // verus!
