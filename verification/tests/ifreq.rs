use priotx::addr::Ipv4;
use priotx::control::ConfigError;
use priotx::flags::{IFF_NO_PI, IFF_TUN};
use priotx::ifreq::{create_request, from_name, IFNAMSIZ, IFREQ_LEN};

#[test]
fn from_name_builds_padded_buffer() {
    let q = from_name(&b"tun0".to_vec()).unwrap();
    assert_eq!(q.bytes.len(), IFREQ_LEN);
    assert_eq!(&q.bytes[0..4], b"tun0");
    assert!(q.bytes[4..].iter().all(|&b| b == 0));
    assert_eq!(q.get_name(), b"tun0".to_vec());
}

#[test]
fn from_name_empty_is_accepted() {
    let q = from_name(&Vec::new()).unwrap();
    assert_eq!(q.get_name(), Vec::<u8>::new());
}

#[test]
fn from_name_rejects_long_names() {
    let too_long = vec![b'x'; IFNAMSIZ];
    assert!(matches!(from_name(&too_long), Err(ConfigError::NameTooLong)));
    let longest = vec![b'x'; IFNAMSIZ - 1];
    assert!(from_name(&longest).is_ok());
}

#[test]
fn flag_word_round_trip() {
    let mut q = from_name(&b"tun0".to_vec()).unwrap();
    q.set_flags(0x1234);
    assert_eq!(q.get_flags(), 0x1234);
    assert_eq!(q.bytes[16], 0x34);
    assert_eq!(q.bytes[17], 0x12);
    assert_eq!(q.get_name(), b"tun0".to_vec());
}

#[test]
fn sockaddr_field_round_trip() {
    let mut q = from_name(&b"tun9".to_vec()).unwrap();
    let a = Ipv4 { o0: 192, o1: 0, o2: 2, o3: 7 };
    q.set_sockaddr(a);
    assert_eq!(q.get_sockaddr(), Ok(a));
    assert_eq!(q.get_name(), b"tun9".to_vec());
}

#[test]
fn create_request_sets_tun_flags() {
    let q = create_request(&b"tun0".to_vec()).unwrap();
    assert_eq!(q.get_flags(), IFF_TUN | IFF_NO_PI);
    assert_eq!(q.get_flags(), 0x1001);
    assert_eq!(q.get_name(), b"tun0".to_vec());
}

#[test]
fn create_request_rejects_long_names() {
    let too_long = vec![b'y'; IFNAMSIZ + 3];
    assert!(matches!(create_request(&too_long), Err(ConfigError::NameTooLong)));
}
