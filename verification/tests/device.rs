use priotx::addr::{DecodeError, Ipv4};
use priotx::control::ConfigError;
use priotx::device::{
    device_bring_down, device_bring_up, device_configure, device_create, device_get_addr,
    device_get_dstaddr, device_get_netmask, device_set_addr, device_set_dstaddr,
    device_set_netmask, new_device, IfaceConfig,
};
use priotx::flags::IFF_UP;

fn ip(o0: u8, o1: u8, o2: u8, o3: u8) -> Ipv4 {
    Ipv4 { o0, o1, o2, o3 }
}

#[test]
fn address_round_trip() {
    for a in [ip(10, 60, 0, 1), ip(0, 0, 0, 0), ip(255, 255, 255, 255)] {
        let mut dev = new_device();
        device_set_addr(&mut dev, a).unwrap();
        assert_eq!(device_get_addr(&mut dev), Ok(a));
    }
}

#[test]
fn peer_address_round_trip() {
    let a = ip(10, 60, 1, 2);
    let mut dev = new_device();
    device_set_dstaddr(&mut dev, a).unwrap();
    assert_eq!(device_get_dstaddr(&mut dev), Ok(a));
}

#[test]
fn netmask_round_trip() {
    let a = ip(255, 255, 255, 254);
    let mut dev = new_device();
    device_set_netmask(&mut dev, a).unwrap();
    assert_eq!(device_get_netmask(&mut dev), Ok(a));
}

#[test]
fn sets_do_not_perturb_each_other() {
    let mut dev = new_device();
    device_set_addr(&mut dev, ip(10, 60, 0, 1)).unwrap();
    device_set_dstaddr(&mut dev, ip(10, 60, 1, 2)).unwrap();
    device_set_netmask(&mut dev, ip(255, 255, 255, 254)).unwrap();
    assert_eq!(device_get_addr(&mut dev), Ok(ip(10, 60, 0, 1)));
    assert_eq!(device_get_dstaddr(&mut dev), Ok(ip(10, 60, 1, 2)));
    assert_eq!(device_get_netmask(&mut dev), Ok(ip(255, 255, 255, 254)));
}

#[test]
fn unconfigured_address_reads_as_error() {
    let mut dev = new_device();
    assert_eq!(
        device_get_addr(&mut dev),
        Err(ConfigError::Decode(DecodeError::WrongFamily))
    );
}

#[test]
fn flag_preservation_across_up_and_down() {
    let unrelated: u16 = 0x1040;
    let mut dev = new_device();
    dev.flags = unrelated;
    device_bring_up(&mut dev).unwrap();
    assert_eq!(dev.flags & unrelated, unrelated);
    assert_eq!(dev.flags & IFF_UP, IFF_UP);
    device_bring_down(&mut dev).unwrap();
    assert_eq!(dev.flags & unrelated, unrelated);
    assert_eq!(dev.flags & IFF_UP, 0);
    assert_eq!(dev.flags, unrelated);
}

#[test]
fn configure_applies_whole_value() {
    let mut dev = new_device();
    dev.flags = 0x1000;
    device_configure(
        &mut dev,
        IfaceConfig {
            addr: ip(10, 60, 0, 1),
            dstaddr: ip(10, 60, 1, 2),
            netmask: ip(255, 255, 255, 254),
        },
    )
    .unwrap();
    assert_eq!(device_get_addr(&mut dev), Ok(ip(10, 60, 0, 1)));
    assert_eq!(device_get_dstaddr(&mut dev), Ok(ip(10, 60, 1, 2)));
    assert_eq!(device_get_netmask(&mut dev), Ok(ip(255, 255, 255, 254)));
    assert_eq!(dev.flags, 0x1000 | IFF_UP);
}

#[test]
fn create_confirms_requested_name() {
    let mut dev = new_device();
    let name = device_create(&mut dev, &b"tun7".to_vec()).unwrap();
    assert_eq!(name, b"tun7".to_vec());
    assert_eq!(dev.name, b"tun7".to_vec());
}

#[test]
fn create_assigns_name_when_left_empty() {
    let mut dev = new_device();
    let name = device_create(&mut dev, &Vec::new()).unwrap();
    assert_eq!(name, b"tun0".to_vec());
}

#[test]
fn create_rejects_long_names() {
    let mut dev = new_device();
    let too_long = vec![b'z'; 16];
    assert_eq!(
        device_create(&mut dev, &too_long),
        Err(ConfigError::NameTooLong)
    );
}
