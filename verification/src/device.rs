//! A model of one kernel virtual interface's configurable state.
//!
//! The kernel side of every device-control call is modelled here as plain
//! data: the flag word and the three stored socket-address payloads.
//! `apply_control` gives the exact semantics of each control call, and the
//! `device_*` functions drive full configuration round trips against it —
//! the same request-building and decoding code that a real device uses,
//! verified end to end against this backend.

use vstd::prelude::*;
use crate::addr::{
    spec_encode_sockaddr, spec_sockaddr_ip, sockaddr_is_inet, DecodeError, Ipv4, SOCKADDR_LEN,
};
use crate::control::{ConfigError, ControlOp};
use crate::flags::{down_flags, spec_down_flags, spec_up_flags, up_flags};
use crate::ifreq::{
    from_name, spec_flags, spec_name, spec_sockaddr_field, IfReq, IFNAMSIZ, IFREQ_LEN,
};

verus! {

/// The name the model assigns when the requested name is empty.
pub open spec fn default_name() -> Seq<u8> {
    seq![116u8, 117u8, 110u8, 48u8]
}

/// The kernel-confirmed name: the requested one, or an assigned default
/// when the request left the choice to the kernel.
pub open spec fn spec_confirmed_name(requested: Seq<u8>) -> Seq<u8> {
    if requested.len() == 0 {
        default_name()
    } else {
        requested
    }
}

/// The configurable state of one virtual interface, as a device-control
/// backend stores it.
pub struct DeviceState {
    /// The confirmed interface name.
    pub name: Vec<u8>,
    /// The administrative flag word.
    pub flags: u16,
    /// The stored local-address payload.
    pub addr: Vec<u8>,
    /// The stored point-to-point peer-address payload.
    pub dstaddr: Vec<u8>,
    /// The stored netmask payload.
    pub netmask: Vec<u8>,
}

impl DeviceState {
    /// The name fits its field and each stored payload has its fixed size.
    pub open spec fn wf(&self) -> bool {
        &&& self.name@.len() < IFNAMSIZ
        &&& self.addr@.len() == SOCKADDR_LEN
        &&& self.dstaddr@.len() == SOCKADDR_LEN
        &&& self.netmask@.len() == SOCKADDR_LEN
    }
}

/// A fresh payload of zero bytes: no address configured yet.
fn zero_payload() -> (out: Vec<u8>)
    ensures
        out@ == Seq::new(SOCKADDR_LEN as nat, |i: int| 0u8),
{
    let mut out: Vec<u8> = Vec::new();
    let mut i: usize = 0;
    while i < SOCKADDR_LEN
        invariant
            0 <= i <= SOCKADDR_LEN,
            out@.len() == i,
            forall|j: int| 0 <= j < i ==> out@[j] == 0u8,
        decreases SOCKADDR_LEN - i,
    {
        out.push(0u8);
        i = i + 1;
    }
    assert(out@ =~= Seq::new(SOCKADDR_LEN as nat, |i: int| 0u8));
    out
}

/// A device in its initial state: unnamed, all flags clear, no addresses.
pub fn new_device() -> (dev: DeviceState)
    ensures
        dev.wf(),
        dev.name@ == Seq::<u8>::empty(),
        dev.flags == 0,
        dev.addr@ == Seq::new(SOCKADDR_LEN as nat, |i: int| 0u8),
        dev.dstaddr@ == Seq::new(SOCKADDR_LEN as nat, |i: int| 0u8),
        dev.netmask@ == Seq::new(SOCKADDR_LEN as nat, |i: int| 0u8),
{
    let dev = DeviceState {
        name: Vec::new(),
        flags: 0,
        addr: zero_payload(),
        dstaddr: zero_payload(),
        netmask: zero_payload(),
    };
    assert(dev.name@ =~= Seq::<u8>::empty());
    dev
}

/// Apply one device-control call to the modelled device.
///
/// Get operations copy device state into the request buffer and leave the
/// device unchanged; set operations copy the request buffer's field into
/// the device and leave the buffer unchanged; interface creation confirms
/// the name, assigning one when the request left it empty. The model never
/// fails: a real backend may instead surface an OS error.
pub fn apply_control(dev: &mut DeviceState, op: ControlOp, req: &mut IfReq) -> (r: Result<
    (),
    ConfigError,
>)
    requires
        old(dev).wf(),
        old(req).wf(),
        op == ControlOp::CreateTun ==> spec_name(old(req)@).len() < IFNAMSIZ,
    ensures
        final(dev).wf(),
        final(req).wf(),
        r == Ok::<(), ConfigError>(()),
        op != ControlOp::CreateTun ==> final(dev).name@ == old(dev).name@,
        op != ControlOp::SetFlags && op != ControlOp::CreateTun ==> final(dev).flags == old(dev).flags,
        op != ControlOp::SetAddr ==> final(dev).addr@ == old(dev).addr@,
        op != ControlOp::SetDstAddr ==> final(dev).dstaddr@ == old(dev).dstaddr@,
        op != ControlOp::SetNetmask ==> final(dev).netmask@ == old(dev).netmask@,
        op == ControlOp::CreateTun ==> {
            &&& final(dev).name@ == spec_confirmed_name(spec_name(old(req)@))
            &&& final(dev).flags == old(dev).flags
            &&& spec_name(final(req)@) == final(dev).name@
        },
        op == ControlOp::GetFlags ==> spec_flags(final(req)@) == old(dev).flags && spec_name(final(req)@) == spec_name(old(req)@),
        op == ControlOp::SetFlags ==> final(dev).flags == spec_flags(old(req)@) && final(req)@
            == old(req)@,
        op == ControlOp::GetAddr ==> spec_sockaddr_field(final(req)@) == old(dev).addr@
            && spec_name(final(req)@) == spec_name(old(req)@),
        op == ControlOp::SetAddr ==> final(dev).addr@ == spec_sockaddr_field(old(req)@) && final(req)@ == old(req)@,
        op == ControlOp::GetDstAddr ==> spec_sockaddr_field(final(req)@) == old(dev).dstaddr@
            && spec_name(final(req)@) == spec_name(old(req)@),
        op == ControlOp::SetDstAddr ==> final(dev).dstaddr@ == spec_sockaddr_field(old(req)@)
            && final(req)@ == old(req)@,
        op == ControlOp::GetNetmask ==> spec_sockaddr_field(final(req)@) == old(dev).netmask@
            && spec_name(final(req)@) == spec_name(old(req)@),
        op == ControlOp::SetNetmask ==> final(dev).netmask@ == spec_sockaddr_field(old(req)@)
            && final(req)@ == old(req)@,
{
    match op {
        ControlOp::CreateTun => {
            let requested = req.get_name();
            proof {
                crate::ifreq::lemma_name_no_nul(old(req)@, 0);
            }
            if requested.len() == 0 {
                let mut assigned: Vec<u8> = Vec::new();
                assigned.push(116u8);
                assigned.push(117u8);
                assigned.push(110u8);
                assigned.push(48u8);
                assert(assigned@ =~= default_name());
                assert forall|j: int| 0 <= j < assigned@.len() implies assigned@[j] != 0 by {
                    assert(assigned@[0] == 116u8);
                    assert(assigned@[1] == 117u8);
                    assert(assigned@[2] == 110u8);
                    assert(assigned@[3] == 48u8);
                }
                dev.name = assigned;
            } else {
                dev.name = requested;
            }
            assert(forall|j: int| 0 <= j < dev.name@.len() ==> dev.name@[j] != 0);
            if let Ok(confirmed_req) = from_name(&dev.name) {
                proof {
                    crate::ifreq::lemma_name_round_trip(dev.name@);
                }
                *req = confirmed_req;
            } else {
                proof {
                    assert(false);
                }
            }
            Ok(())
        },
        ControlOp::GetFlags => {
            req.set_flags(dev.flags);
            Ok(())
        },
        ControlOp::SetFlags => {
            dev.flags = req.get_flags();
            Ok(())
        },
        ControlOp::GetAddr => {
            write_payload(req, &dev.addr);
            Ok(())
        },
        ControlOp::SetAddr => {
            dev.addr = req.sockaddr_payload();
            Ok(())
        },
        ControlOp::GetDstAddr => {
            write_payload(req, &dev.dstaddr);
            Ok(())
        },
        ControlOp::SetDstAddr => {
            dev.dstaddr = req.sockaddr_payload();
            Ok(())
        },
        ControlOp::GetNetmask => {
            write_payload(req, &dev.netmask);
            Ok(())
        },
        ControlOp::SetNetmask => {
            dev.netmask = req.sockaddr_payload();
            Ok(())
        },
    }
}

/// Copy a stored payload into the request buffer's payload area, leaving
/// the name field unchanged.
fn write_payload(req: &mut IfReq, payload: &Vec<u8>)
    requires
        old(req).wf(),
        payload@.len() == SOCKADDR_LEN,
    ensures
        final(req).wf(),
        spec_sockaddr_field(final(req)@) == payload@,
        spec_name(final(req)@) == spec_name(old(req)@),
{
    let mut i: usize = 0;
    while i < SOCKADDR_LEN
        invariant
            0 <= i <= SOCKADDR_LEN,
            req@.len() == IFREQ_LEN,
            payload@.len() == SOCKADDR_LEN,
            forall|j: int| 0 <= j < IFNAMSIZ ==> req@[j] == old(req)@[j],
            forall|j: int| 0 <= j < i ==> req@[IFNAMSIZ + j] == payload@[j],
        decreases SOCKADDR_LEN - i,
    {
        req.bytes[16 + i] = payload[i];
        i = i + 1;
    }
    assert(spec_sockaddr_field(req@) =~= payload@);
    proof {
        crate::ifreq::lemma_name_depends_on_name_field(req@, old(req)@, 0);
    }
}

/// Create a virtual interface against the modelled backend: build the
/// creation request and read back the confirmed name.
///
/// A name that does not fit the name field is rejected before any call; a
/// fitting one is confirmed verbatim (when NUL-free and nonempty), and an
/// empty one has the backend assign the default.
pub fn device_create(dev: &mut DeviceState, requested: &Vec<u8>) -> (r: Result<
    Vec<u8>,
    ConfigError,
>)
    requires
        old(dev).wf(),
    ensures
        final(dev).wf(),
        requested@.len() >= IFNAMSIZ ==> r == Err::<Vec<u8>, ConfigError>(
            ConfigError::NameTooLong,
        ) && final(dev).name@ == old(dev).name@,
        requested@.len() < IFNAMSIZ ==> (r matches Ok(n) && n@ == final(dev).name@),
        requested@.len() == 0 ==> final(dev).name@ == default_name(),
        0 < requested@.len() < IFNAMSIZ && (forall|j: int|
            0 <= j < requested@.len() ==> requested@[j] != 0) ==> final(dev).name@ == requested@,
        final(dev).flags == old(dev).flags,
        final(dev).addr@ == old(dev).addr@,
        final(dev).dstaddr@ == old(dev).dstaddr@,
        final(dev).netmask@ == old(dev).netmask@,
{
    let mut req = match crate::ifreq::create_request(requested) {
        Ok(q) => q,
        Err(e) => {
            return Err(e);
        },
    };
    let ghost padded = requested@ + Seq::new((IFREQ_LEN - requested@.len()) as nat, |i: int| 0u8);
    proof {
        assert(padded[requested@.len() as int] == 0);
        crate::ifreq::lemma_name_len_bound(padded, 0, requested@.len() as int);
        if 0 < requested@.len() && (forall|j: int|
            0 <= j < requested@.len() ==> requested@[j] != 0) {
            crate::ifreq::lemma_name_round_trip(requested@);
        }
    }
    let _ = apply_control(dev, ControlOp::CreateTun, &mut req);
    let confirmed = req.get_name();
    Ok(confirmed)
}

/// Bring the modelled interface administratively up: read the flag word,
/// set exactly the up bit, and write the word back.
pub fn device_bring_up(dev: &mut DeviceState) -> (r: Result<(), ConfigError>)
    requires
        old(dev).wf(),
    ensures
        final(dev).wf(),
        r == Ok::<(), ConfigError>(()),
        final(dev).flags == spec_up_flags(old(dev).flags),
        final(dev).name@ == old(dev).name@,
        final(dev).addr@ == old(dev).addr@,
        final(dev).dstaddr@ == old(dev).dstaddr@,
        final(dev).netmask@ == old(dev).netmask@,
{
    let mut req = match from_name(&dev.name) {
        Ok(q) => q,
        Err(e) => {
            proof {
                assert(false);
            }
            return Err(e);
        },
    };
    let _ = apply_control(dev, ControlOp::GetFlags, &mut req);
    let f = req.get_flags();
    req.set_flags(up_flags(f));
    let _ = apply_control(dev, ControlOp::SetFlags, &mut req);
    Ok(())
}

/// Bring the modelled interface administratively down: read the flag word,
/// clear exactly the up bit, and write the word back.
pub fn device_bring_down(dev: &mut DeviceState) -> (r: Result<(), ConfigError>)
    requires
        old(dev).wf(),
    ensures
        final(dev).wf(),
        r == Ok::<(), ConfigError>(()),
        final(dev).flags == spec_down_flags(old(dev).flags),
        final(dev).name@ == old(dev).name@,
        final(dev).addr@ == old(dev).addr@,
        final(dev).dstaddr@ == old(dev).dstaddr@,
        final(dev).netmask@ == old(dev).netmask@,
{
    let mut req = match from_name(&dev.name) {
        Ok(q) => q,
        Err(e) => {
            proof {
                assert(false);
            }
            return Err(e);
        },
    };
    let _ = apply_control(dev, ControlOp::GetFlags, &mut req);
    let f = req.get_flags();
    req.set_flags(down_flags(f));
    let _ = apply_control(dev, ControlOp::SetFlags, &mut req);
    Ok(())
}

/// Set the modelled interface's local address, perturbing neither the peer
/// address nor the netmask.
pub fn device_set_addr(dev: &mut DeviceState, a: Ipv4) -> (r: Result<(), ConfigError>)
    requires
        old(dev).wf(),
    ensures
        final(dev).wf(),
        r == Ok::<(), ConfigError>(()),
        final(dev).addr@ == spec_encode_sockaddr(a),
        final(dev).name@ == old(dev).name@,
        final(dev).flags == old(dev).flags,
        final(dev).dstaddr@ == old(dev).dstaddr@,
        final(dev).netmask@ == old(dev).netmask@,
{
    let mut req = match from_name(&dev.name) {
        Ok(q) => q,
        Err(e) => {
            proof {
                assert(false);
            }
            return Err(e);
        },
    };
    req.set_sockaddr(a);
    let _ = apply_control(dev, ControlOp::SetAddr, &mut req);
    Ok(())
}

/// Read the modelled interface's local address back.
pub fn device_get_addr(dev: &mut DeviceState) -> (r: Result<Ipv4, ConfigError>)
    requires
        old(dev).wf(),
    ensures
        final(dev).wf(),
        final(dev).name@ == old(dev).name@,
        final(dev).flags == old(dev).flags,
        final(dev).addr@ == old(dev).addr@,
        final(dev).dstaddr@ == old(dev).dstaddr@,
        final(dev).netmask@ == old(dev).netmask@,
        sockaddr_is_inet(old(dev).addr@) ==> r == Ok::<Ipv4, ConfigError>(
            spec_sockaddr_ip(old(dev).addr@),
        ),
        !sockaddr_is_inet(old(dev).addr@) ==> r == Err::<Ipv4, ConfigError>(
            ConfigError::Decode(DecodeError::WrongFamily),
        ),
        forall|a: Ipv4|
            old(dev).addr@ == spec_encode_sockaddr(a) ==> r == Ok::<Ipv4, ConfigError>(a),
{
    let mut req = match from_name(&dev.name) {
        Ok(q) => q,
        Err(e) => {
            proof {
                assert(false);
            }
            return Err(e);
        },
    };
    let _ = apply_control(dev, ControlOp::GetAddr, &mut req);
    let out = match req.get_sockaddr() {
        Ok(ip) => Ok(ip),
        Err(e) => Err(ConfigError::Decode(e)),
    };
    proof {
        assert forall|a: Ipv4| dev.addr@ == spec_encode_sockaddr(a) implies out == Ok::<
            Ipv4,
            ConfigError,
        >(a) by {
            crate::addr::lemma_sockaddr_round_trip(a);
        }
    }
    out
}

/// Set the modelled interface's point-to-point peer address, perturbing
/// neither the local address nor the netmask.
pub fn device_set_dstaddr(dev: &mut DeviceState, a: Ipv4) -> (r: Result<(), ConfigError>)
    requires
        old(dev).wf(),
    ensures
        final(dev).wf(),
        r == Ok::<(), ConfigError>(()),
        final(dev).dstaddr@ == spec_encode_sockaddr(a),
        final(dev).name@ == old(dev).name@,
        final(dev).flags == old(dev).flags,
        final(dev).addr@ == old(dev).addr@,
        final(dev).netmask@ == old(dev).netmask@,
{
    let mut req = match from_name(&dev.name) {
        Ok(q) => q,
        Err(e) => {
            proof {
                assert(false);
            }
            return Err(e);
        },
    };
    req.set_sockaddr(a);
    let _ = apply_control(dev, ControlOp::SetDstAddr, &mut req);
    Ok(())
}

/// Read the modelled interface's peer address back.
pub fn device_get_dstaddr(dev: &mut DeviceState) -> (r: Result<Ipv4, ConfigError>)
    requires
        old(dev).wf(),
    ensures
        final(dev).wf(),
        final(dev).name@ == old(dev).name@,
        final(dev).flags == old(dev).flags,
        final(dev).addr@ == old(dev).addr@,
        final(dev).dstaddr@ == old(dev).dstaddr@,
        final(dev).netmask@ == old(dev).netmask@,
        sockaddr_is_inet(old(dev).dstaddr@) ==> r == Ok::<Ipv4, ConfigError>(
            spec_sockaddr_ip(old(dev).dstaddr@),
        ),
        !sockaddr_is_inet(old(dev).dstaddr@) ==> r == Err::<Ipv4, ConfigError>(
            ConfigError::Decode(DecodeError::WrongFamily),
        ),
        forall|a: Ipv4|
            old(dev).dstaddr@ == spec_encode_sockaddr(a) ==> r == Ok::<Ipv4, ConfigError>(a),
{
    let mut req = match from_name(&dev.name) {
        Ok(q) => q,
        Err(e) => {
            proof {
                assert(false);
            }
            return Err(e);
        },
    };
    let _ = apply_control(dev, ControlOp::GetDstAddr, &mut req);
    let out = match req.get_sockaddr() {
        Ok(ip) => Ok(ip),
        Err(e) => Err(ConfigError::Decode(e)),
    };
    proof {
        assert forall|a: Ipv4| dev.dstaddr@ == spec_encode_sockaddr(a) implies out == Ok::<
            Ipv4,
            ConfigError,
        >(a) by {
            crate::addr::lemma_sockaddr_round_trip(a);
        }
    }
    out
}

/// Set the modelled interface's netmask, perturbing neither address field.
pub fn device_set_netmask(dev: &mut DeviceState, a: Ipv4) -> (r: Result<(), ConfigError>)
    requires
        old(dev).wf(),
    ensures
        final(dev).wf(),
        r == Ok::<(), ConfigError>(()),
        final(dev).netmask@ == spec_encode_sockaddr(a),
        final(dev).name@ == old(dev).name@,
        final(dev).flags == old(dev).flags,
        final(dev).addr@ == old(dev).addr@,
        final(dev).dstaddr@ == old(dev).dstaddr@,
{
    let mut req = match from_name(&dev.name) {
        Ok(q) => q,
        Err(e) => {
            proof {
                assert(false);
            }
            return Err(e);
        },
    };
    req.set_sockaddr(a);
    let _ = apply_control(dev, ControlOp::SetNetmask, &mut req);
    Ok(())
}

/// A plain configuration value for one interface: applied as an ordered
/// sequence of independent set-operations, in place of chained
/// "returns self" configuration calls.
#[derive(Clone, Copy, PartialEq, Eq, Structural, Debug)]
pub struct IfaceConfig {
    /// The local address.
    pub addr: Ipv4,
    /// The point-to-point peer address.
    pub dstaddr: Ipv4,
    /// The netmask.
    pub netmask: Ipv4,
}

/// Apply a whole interface configuration in order — address, peer address,
/// netmask — and bring the interface up, touching no other flag bit.
pub fn device_configure(dev: &mut DeviceState, cfg: IfaceConfig) -> (r: Result<(), ConfigError>)
    requires
        old(dev).wf(),
    ensures
        final(dev).wf(),
        r == Ok::<(), ConfigError>(()),
        final(dev).addr@ == spec_encode_sockaddr(cfg.addr),
        final(dev).dstaddr@ == spec_encode_sockaddr(cfg.dstaddr),
        final(dev).netmask@ == spec_encode_sockaddr(cfg.netmask),
        final(dev).flags == spec_up_flags(old(dev).flags),
        final(dev).name@ == old(dev).name@,
{
    device_set_addr(dev, cfg.addr)?;
    device_set_dstaddr(dev, cfg.dstaddr)?;
    device_set_netmask(dev, cfg.netmask)?;
    device_bring_up(dev)
}

/// Read the modelled interface's netmask back.
pub fn device_get_netmask(dev: &mut DeviceState) -> (r: Result<Ipv4, ConfigError>)
    requires
        old(dev).wf(),
    ensures
        final(dev).wf(),
        final(dev).name@ == old(dev).name@,
        final(dev).flags == old(dev).flags,
        final(dev).addr@ == old(dev).addr@,
        final(dev).dstaddr@ == old(dev).dstaddr@,
        final(dev).netmask@ == old(dev).netmask@,
        sockaddr_is_inet(old(dev).netmask@) ==> r == Ok::<Ipv4, ConfigError>(
            spec_sockaddr_ip(old(dev).netmask@),
        ),
        !sockaddr_is_inet(old(dev).netmask@) ==> r == Err::<Ipv4, ConfigError>(
            ConfigError::Decode(DecodeError::WrongFamily),
        ),
        forall|a: Ipv4|
            old(dev).netmask@ == spec_encode_sockaddr(a) ==> r == Ok::<Ipv4, ConfigError>(a),
{
    let mut req = match from_name(&dev.name) {
        Ok(q) => q,
        Err(e) => {
            proof {
                assert(false);
            }
            return Err(e);
        },
    };
    let _ = apply_control(dev, ControlOp::GetNetmask, &mut req);
    let out = match req.get_sockaddr() {
        Ok(ip) => Ok(ip),
        Err(e) => Err(ConfigError::Decode(e)),
    };
    proof {
        assert forall|a: Ipv4| dev.netmask@ == spec_encode_sockaddr(a) implies out == Ok::<
            Ipv4,
            ConfigError,
        >(a) by {
            crate::addr::lemma_sockaddr_round_trip(a);
        }
    }
    out
}

} // verus!
