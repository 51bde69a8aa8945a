//! The interface-request buffer handed to device-control calls.
//!
//! A request is a fixed 40-byte buffer: a 16-byte interface name field
//! (NUL-padded) followed by a 24-byte payload area that, depending on the
//! operation, holds a 16-bit flag word or a 16-byte socket-address payload.
//! All field access is explicit and bounds-checked; no memory is
//! reinterpreted.

use vstd::prelude::*;
use crate::addr::{
    decode_sockaddr, encode_sockaddr, spec_encode_sockaddr, spec_sockaddr_ip, sockaddr_is_inet,
    DecodeError, Ipv4, SOCKADDR_LEN,
};
use crate::control::ConfigError;
use crate::flags::TUN_CREATE_FLAGS;

verus! {

/// Size of the interface name field, terminating NUL included.
pub const IFNAMSIZ: usize = 16;

/// Total size of a request buffer: the name field plus the payload area.
pub const IFREQ_LEN: usize = 40;

/// Offset of the 16-bit flag word inside the buffer.
pub const FLAGS_OFFSET: usize = 16;

/// Offset of the socket-address payload inside the buffer. It shares the
/// payload area with the flag word: an operation uses one or the other.
pub const SOCKADDR_OFFSET: usize = 16;

/// A device-control request buffer.
pub struct IfReq {
    /// The raw buffer, always exactly `IFREQ_LEN` bytes.
    pub bytes: Vec<u8>,
}

impl View for IfReq {
    type V = Seq<u8>;

    open spec fn view(&self) -> Seq<u8> {
        self.bytes@
    }
}

impl IfReq {
    /// A request buffer is well formed when it has its fixed size.
    pub open spec fn wf(&self) -> bool {
        self@.len() == IFREQ_LEN
    }
}

/// The interface name stored in a buffer, read from byte `i` on: the bytes
/// up to the first NUL within the name field.
pub open spec fn spec_name_from(b: Seq<u8>, i: int) -> Seq<u8>
    decreases IFNAMSIZ - i,
{
    if i < 0 || i >= IFNAMSIZ || i >= b.len() {
        Seq::empty()
    } else if b[i] == 0 {
        Seq::empty()
    } else {
        seq![b[i]] + spec_name_from(b, i + 1)
    }
}

/// The interface name stored in a buffer: the name-field bytes up to the
/// first NUL.
pub open spec fn spec_name(b: Seq<u8>) -> Seq<u8> {
    spec_name_from(b, 0)
}

/// The flag word stored in a buffer, low byte first.
pub open spec fn spec_flags(b: Seq<u8>) -> u16
    recommends
        b.len() >= FLAGS_OFFSET + 2,
{
    (b[FLAGS_OFFSET as int] + 256 * b[FLAGS_OFFSET + 1]) as u16
}

/// The socket-address payload stored in a buffer.
pub open spec fn spec_sockaddr_field(b: Seq<u8>) -> Seq<u8>
    recommends
        b.len() == IFREQ_LEN,
{
    b.subrange(SOCKADDR_OFFSET as int, SOCKADDR_OFFSET as int + SOCKADDR_LEN as int)
}

/// Reading a name looks only at the name field: two buffers that agree on
/// their first `IFNAMSIZ` bytes store the same name.
pub proof fn lemma_name_depends_on_name_field(b1: Seq<u8>, b2: Seq<u8>, i: int)
    requires
        b1.len() >= IFNAMSIZ,
        b2.len() >= IFNAMSIZ,
        forall|j: int| 0 <= j < IFNAMSIZ ==> b1[j] == b2[j],
        0 <= i,
    ensures
        spec_name_from(b1, i) == spec_name_from(b2, i),
    decreases IFNAMSIZ - i,
{
    if i < IFNAMSIZ {
        lemma_name_depends_on_name_field(b1, b2, i + 1);
    }
}

/// A stored name never contains a NUL and never exceeds the name field.
pub proof fn lemma_name_no_nul(b: Seq<u8>, i: int)
    requires
        0 <= i <= IFNAMSIZ,
    ensures
        spec_name_from(b, i).len() <= IFNAMSIZ - i,
        forall|j: int| 0 <= j < spec_name_from(b, i).len() ==> spec_name_from(b, i)[j] != 0,
    decreases IFNAMSIZ - i,
{
    if i < IFNAMSIZ && i < b.len() && b[i] != 0 {
        lemma_name_no_nul(b, i + 1);
        assert forall|j: int| 0 <= j < spec_name_from(b, i).len() implies spec_name_from(b, i)[j]
            != 0 by {
            if j > 0 {
                assert(spec_name_from(b, i)[j] == spec_name_from(b, i + 1)[j - 1]);
            }
        }
    }
}

/// A NUL at byte `k` bounds the stored name: scanning from `i` stops at or
/// before it.
pub proof fn lemma_name_len_bound(b: Seq<u8>, i: int, k: int)
    requires
        0 <= i <= k < IFNAMSIZ,
        k < b.len(),
        b[k] == 0,
    ensures
        spec_name_from(b, i).len() <= k - i,
    decreases k - i,
{
    if i < k && i < b.len() && b[i] != 0 {
        lemma_name_len_bound(b, i + 1, k);
    }
}

/// Unfolding of the name up to a NUL-free point: while no NUL has been
/// seen, the name is the bytes scanned so far followed by the rest.
proof fn lemma_name_unfold(b: Seq<u8>, k: int, i: int)
    requires
        b.len() >= IFNAMSIZ,
        0 <= k <= i <= IFNAMSIZ,
        forall|j: int| k <= j < i ==> b[j] != 0,
    ensures
        spec_name_from(b, k) == b.subrange(k, i) + spec_name_from(b, i),
    decreases i - k,
{
    if k < i {
        lemma_name_unfold(b, k + 1, i);
        assert(b.subrange(k, i) =~= seq![b[k]] + b.subrange(k + 1, i));
        assert(seq![b[k]] + (b.subrange(k + 1, i) + spec_name_from(b, i)) =~= b.subrange(k, i)
            + spec_name_from(b, i));
    } else {
        assert(b.subrange(k, i) =~= Seq::<u8>::empty());
        assert(Seq::<u8>::empty() + spec_name_from(b, i) =~= spec_name_from(b, i));
    }
}

/// Law: a NUL-free name that fits the name field is read back verbatim
/// from the buffer that `from_name` builds.
pub proof fn lemma_name_round_trip(name: Seq<u8>)
    requires
        name.len() < IFNAMSIZ,
        forall|j: int| 0 <= j < name.len() ==> name[j] != 0,
    ensures
        spec_name(name + Seq::new((IFREQ_LEN - name.len()) as nat, |i: int| 0u8)) == name,
{
    let padded = name + Seq::new((IFREQ_LEN - name.len()) as nat, |i: int| 0u8);
    lemma_name_unfold(padded, 0, name.len() as int);
    assert(padded[name.len() as int] == 0);
    assert(spec_name_from(padded, name.len() as int) == Seq::<u8>::empty());
    assert(padded.subrange(0, name.len() as int) =~= name);
    assert(name + Seq::<u8>::empty() =~= name);
}

/// Build a request buffer carrying `name` in the name field and zeroes
/// everywhere else. An empty name asks the kernel to assign one.
pub fn from_name(name: &Vec<u8>) -> (r: Result<IfReq, ConfigError>)
    ensures
        name@.len() >= IFNAMSIZ ==> r == Err::<IfReq, ConfigError>(ConfigError::NameTooLong),
        name@.len() < IFNAMSIZ ==> (r matches Ok(q) && q.wf() && q@ == name@ + Seq::new(
            (IFREQ_LEN - name@.len()) as nat,
            |i: int| 0u8,
        )),
{
    if name.len() >= IFNAMSIZ {
        return Err(ConfigError::NameTooLong);
    }
    let mut bytes: Vec<u8> = Vec::new();
    let mut i: usize = 0;
    while i < name.len()
        invariant
            i <= name@.len() < IFNAMSIZ,
            bytes@ == name@.take(i as int),
        decreases name@.len() - i,
    {
        bytes.push(name[i]);
        i = i + 1;
        assert(bytes@ =~= name@.take(i as int));
    }
    assert(bytes@ =~= name@);
    while i < IFREQ_LEN
        invariant
            name@.len() <= i <= IFREQ_LEN,
            bytes@.len() == i,
            bytes@.take(name@.len() as int) == name@,
            forall|j: int| name@.len() <= j < i ==> bytes@[j] == 0u8,
        decreases IFREQ_LEN - i,
    {
        bytes.push(0u8);
        i = i + 1;
    }
    let q = IfReq { bytes };
    assert(q@ =~= name@ + Seq::new((IFREQ_LEN - name@.len()) as nat, |i: int| 0u8));
    Ok(q)
}

impl IfReq {
    /// Read the interface name out of the name field, up to its NUL.
    pub fn get_name(&self) -> (r: Vec<u8>)
        requires
            self.wf(),
        ensures
            r@ == spec_name(self@),
    {
        let mut out: Vec<u8> = Vec::new();
        let mut i: usize = 0;
        let ghost b = self@;
        while i < IFNAMSIZ && *self.bytes.get(i).unwrap() != 0u8
            invariant
                self.wf(),
                b == self@,
                0 <= i <= IFNAMSIZ,
                out@ == b.subrange(0, i as int),
                forall|j: int| 0 <= j < i ==> b[j] != 0,
            decreases IFNAMSIZ - i,
        {
            out.push(self.bytes[i]);
            i = i + 1;
            assert(out@ =~= b.subrange(0, i as int));
        }
        proof {
            lemma_name_unfold(b, 0, i as int);
            assert(spec_name_from(b, i as int) == Seq::<u8>::empty());
            assert(b.subrange(0, i as int) + Seq::<u8>::empty() =~= b.subrange(0, i as int));
        }
        out
    }

    /// Read the flag word, low byte first.
    pub fn get_flags(&self) -> (r: u16)
        requires
            self.wf(),
        ensures
            r == spec_flags(self@),
    {
        let lo = self.bytes[FLAGS_OFFSET];
        let hi = self.bytes[FLAGS_OFFSET + 1];
        lo as u16 + 256 * (hi as u16)
    }

    /// Write the flag word, low byte first, touching nothing else.
    pub fn set_flags(&mut self, f: u16)
        requires
            old(self).wf(),
        ensures
            final(self).wf(),
            final(self)@ == old(self)@.update(FLAGS_OFFSET as int, (f % 256) as u8).update(
                FLAGS_OFFSET + 1,
                (f / 256) as u8,
            ),
            spec_flags(final(self)@) == f,
            spec_name(final(self)@) == spec_name(old(self)@),
    {
        let lo: u8 = (f % 256) as u8;
        let hi: u8 = (f / 256) as u8;
        self.bytes[FLAGS_OFFSET] = lo;
        self.bytes[FLAGS_OFFSET + 1] = hi;
        assert(f % 256 + 256 * (f / 256) == f) by (bit_vector);
        proof {
            lemma_name_depends_on_name_field(self@, old(self)@, 0);
        }
    }

    /// Write a socket-address payload into the payload area, leaving the
    /// name field and the bytes past the payload unchanged.
    pub fn set_sockaddr(&mut self, a: Ipv4)
        requires
            old(self).wf(),
        ensures
            final(self).wf(),
            spec_sockaddr_field(final(self)@) == spec_encode_sockaddr(a),
            final(self)@.subrange(0, SOCKADDR_OFFSET as int) == old(self)@.subrange(
                0,
                SOCKADDR_OFFSET as int,
            ),
            final(self)@.subrange(SOCKADDR_OFFSET + SOCKADDR_LEN, IFREQ_LEN as int) == old(
                self,
            )@.subrange(SOCKADDR_OFFSET + SOCKADDR_LEN, IFREQ_LEN as int),
            spec_name(final(self)@) == spec_name(old(self)@),
    {
        let enc = encode_sockaddr(a);
        let mut i: usize = 0;
        while i < SOCKADDR_LEN
            invariant
                0 <= i <= SOCKADDR_LEN,
                self@.len() == IFREQ_LEN,
                enc@ == spec_encode_sockaddr(a),
                forall|j: int| 0 <= j < SOCKADDR_OFFSET ==> self@[j] == old(self)@[j],
                forall|j: int| 0 <= j < i ==> self@[SOCKADDR_OFFSET + j] == enc@[j],
                forall|j: int|
                    SOCKADDR_OFFSET + i <= j < IFREQ_LEN ==> self@[j] == old(self)@[j],
            decreases SOCKADDR_LEN - i,
        {
            self.bytes[SOCKADDR_OFFSET + i] = enc[i];
            i = i + 1;
        }
        assert(spec_sockaddr_field(self@) =~= spec_encode_sockaddr(a));
        assert(self@.subrange(0, SOCKADDR_OFFSET as int) =~= old(self)@.subrange(
            0,
            SOCKADDR_OFFSET as int,
        ));
        assert(self@.subrange(SOCKADDR_OFFSET + SOCKADDR_LEN, IFREQ_LEN as int) =~= old(
            self,
        )@.subrange(SOCKADDR_OFFSET + SOCKADDR_LEN, IFREQ_LEN as int));
        proof {
            lemma_name_depends_on_name_field(self@, old(self)@, 0);
        }
    }

    /// Copy the socket-address payload out of the payload area.
    pub fn sockaddr_payload(&self) -> (out: Vec<u8>)
        requires
            self.wf(),
        ensures
            out@ == spec_sockaddr_field(self@),
    {
        let mut out: Vec<u8> = Vec::new();
        let mut i: usize = 0;
        while i < SOCKADDR_LEN
            invariant
                0 <= i <= SOCKADDR_LEN,
                self.wf(),
                out@.len() == i,
                forall|j: int| 0 <= j < i ==> out@[j] == self@[SOCKADDR_OFFSET + j],
            decreases SOCKADDR_LEN - i,
        {
            out.push(self.bytes[SOCKADDR_OFFSET + i]);
            i = i + 1;
        }
        assert(out@ =~= spec_sockaddr_field(self@));
        out
    }

    /// Decode the IPv4 address stored in the payload area.
    pub fn get_sockaddr(&self) -> (r: Result<Ipv4, DecodeError>)
        requires
            self.wf(),
        ensures
            sockaddr_is_inet(spec_sockaddr_field(self@)) ==> r == Ok::<Ipv4, DecodeError>(
                spec_sockaddr_ip(spec_sockaddr_field(self@)),
            ),
            !sockaddr_is_inet(spec_sockaddr_field(self@)) ==> r == Err::<Ipv4, DecodeError>(
                DecodeError::WrongFamily,
            ),
    {
        let p = self.sockaddr_payload();
        decode_sockaddr(&p)
    }
}

/// Build the request that creates a TUN-style interface: the requested
/// name (empty to let the kernel choose) and the creation flag word for a
/// point-to-point device with no extra per-packet header.
pub fn create_request(name: &Vec<u8>) -> (r: Result<IfReq, ConfigError>)
    ensures
        name@.len() >= IFNAMSIZ ==> r == Err::<IfReq, ConfigError>(ConfigError::NameTooLong),
        name@.len() < IFNAMSIZ ==> (r matches Ok(q) && q.wf() && spec_flags(q@)
            == TUN_CREATE_FLAGS && spec_name(q@) == spec_name(
            name@ + Seq::new((IFREQ_LEN - name@.len()) as nat, |i: int| 0u8),
        )),
{
    let mut q = from_name(name)?;
    q.set_flags(TUN_CREATE_FLAGS);
    Ok(q)
}

} // verus!
