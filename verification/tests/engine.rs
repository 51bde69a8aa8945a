use priotx::addr::{Ipv4, SockAddrV4};
use priotx::device::{
    device_bring_up, device_create, device_get_addr, device_get_dstaddr, device_get_netmask,
    device_set_addr, device_set_dstaddr, device_set_netmask, new_device,
};
use priotx::flags::IFF_UP;
use priotx::engine::{
    new_config, route, step, Dest, IoOutcome, LoopState, Source, TunnelConfig, BUFFER_CAPACITY,
};

fn ip(o0: u8, o1: u8, o2: u8, o3: u8) -> Ipv4 {
    Ipv4 { o0, o1, o2, o3 }
}

fn cfg() -> TunnelConfig {
    new_config(
        SockAddrV4 { ip: ip(127, 0, 0, 1), port: 12345 },
        SockAddrV4 { ip: ip(127, 0, 0, 1), port: 23456 },
    )
}

#[test]
fn routing_table() {
    assert_eq!(route(Source::Primary), Dest::Peer);
    assert_eq!(route(Source::Secondary), Dest::Peer);
    assert_eq!(route(Source::Socket), Dest::PrimaryIface);
}

#[test]
fn forwarding_fidelity_within_capacity() {
    let c = cfg();
    let packet: Vec<u8> = (0..200u16).map(|i| (i % 251) as u8).collect();
    let (st, fwd) = step(&c, LoopState::Running, Source::Primary, IoOutcome::Data(packet.clone()));
    assert_eq!(st, LoopState::Running);
    let f = fwd.unwrap();
    assert_eq!(f.dest, Dest::Peer);
    assert_eq!(f.payload, packet);
}

#[test]
fn forwarding_fidelity_at_exact_capacity() {
    let c = cfg();
    let packet = vec![0xA5u8; BUFFER_CAPACITY];
    let (_, fwd) = step(&c, LoopState::Running, Source::Primary, IoOutcome::Data(packet.clone()));
    assert_eq!(fwd.unwrap().payload, packet);
}

#[test]
fn truncation_over_capacity() {
    let c = cfg();
    let mut datagram = vec![7u8; BUFFER_CAPACITY + 300];
    datagram[BUFFER_CAPACITY - 1] = 9;
    let (st, fwd) = step(&c, LoopState::Running, Source::Socket, IoOutcome::Data(datagram.clone()));
    assert_eq!(st, LoopState::Running);
    let f = fwd.unwrap();
    assert_eq!(f.dest, Dest::PrimaryIface);
    assert_eq!(f.payload.len(), BUFFER_CAPACITY);
    assert_eq!(f.payload, datagram[..BUFFER_CAPACITY].to_vec());
}

#[test]
fn asymmetric_routing() {
    let c = cfg();
    let (_, from_secondary) = step(
        &c,
        LoopState::Running,
        Source::Secondary,
        IoOutcome::Data(b"via-secondary".to_vec()),
    );
    assert_eq!(from_secondary.unwrap().dest, Dest::Peer);
    let (_, from_socket) = step(
        &c,
        LoopState::Running,
        Source::Socket,
        IoOutcome::Data(b"from-peer".to_vec()),
    );
    assert_eq!(from_socket.unwrap().dest, Dest::PrimaryIface);
}

#[test]
fn fatal_propagation() {
    let c = cfg();
    for failing in [Source::Primary, Source::Secondary, Source::Socket] {
        let (st, fwd) = step(&c, LoopState::Running, failing, IoOutcome::Failed(5));
        assert_eq!(st, LoopState::Failed(5));
        assert!(fwd.is_none());
        for later in [Source::Primary, Source::Secondary, Source::Socket] {
            let (st2, fwd2) = step(&c, st, later, IoOutcome::Data(b"late".to_vec()));
            assert_eq!(st2, LoopState::Failed(5));
            assert!(fwd2.is_none());
            let (st3, fwd3) = step(&c, st2, later, IoOutcome::Failed(13));
            assert_eq!(st3, LoopState::Failed(5));
            assert!(fwd3.is_none());
        }
    }
}

#[test]
fn empty_read_is_forwarded_empty() {
    let c = cfg();
    let (st, fwd) = step(&c, LoopState::Running, Source::Primary, IoOutcome::Data(Vec::new()));
    assert_eq!(st, LoopState::Running);
    assert_eq!(fwd.unwrap().payload, Vec::<u8>::new());
}

#[test]
fn end_to_end_scenario() {
    let mut primary = new_device();
    device_create(&mut primary, &Vec::new()).unwrap();
    device_set_addr(&mut primary, ip(10, 60, 0, 1)).unwrap();
    device_set_dstaddr(&mut primary, ip(10, 60, 1, 2)).unwrap();
    device_set_netmask(&mut primary, ip(255, 255, 255, 254)).unwrap();
    device_bring_up(&mut primary).unwrap();
    assert_eq!(device_get_addr(&mut primary), Ok(ip(10, 60, 0, 1)));
    assert_eq!(device_get_dstaddr(&mut primary), Ok(ip(10, 60, 1, 2)));
    assert_eq!(device_get_netmask(&mut primary), Ok(ip(255, 255, 255, 254)));
    assert_eq!(primary.flags & IFF_UP, IFF_UP);

    let c = cfg();
    assert_eq!(c.local, SockAddrV4 { ip: ip(127, 0, 0, 1), port: 12345 });
    let (st, fwd) = step(&c, LoopState::Running, Source::Primary, IoOutcome::Data(b"PING".to_vec()));
    assert_eq!(st, LoopState::Running);
    let f = fwd.unwrap();
    assert_eq!(f.dest, Dest::Peer);
    assert_eq!(c.peer, SockAddrV4 { ip: ip(127, 0, 0, 1), port: 23456 });
    assert_eq!(f.payload, b"PING".to_vec());
}
