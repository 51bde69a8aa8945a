use priotx::control::{request_code, ConfigError, ControlOp, Platform};
use priotx::flags::{down_flags, up_flags, IFF_UP};

#[test]
fn linux_request_codes() {
    assert_eq!(request_code(Platform::Linux, ControlOp::CreateTun), Ok(0x400454CA));
    assert_eq!(request_code(Platform::Linux, ControlOp::GetFlags), Ok(0x8913));
    assert_eq!(request_code(Platform::Linux, ControlOp::SetFlags), Ok(0x8914));
    assert_eq!(request_code(Platform::Linux, ControlOp::GetAddr), Ok(0x8915));
    assert_eq!(request_code(Platform::Linux, ControlOp::SetAddr), Ok(0x8916));
    assert_eq!(request_code(Platform::Linux, ControlOp::GetDstAddr), Ok(0x8917));
    assert_eq!(request_code(Platform::Linux, ControlOp::SetDstAddr), Ok(0x8918));
    assert_eq!(request_code(Platform::Linux, ControlOp::GetNetmask), Ok(0x891B));
    assert_eq!(request_code(Platform::Linux, ControlOp::SetNetmask), Ok(0x891C));
}

#[test]
fn unsupported_platforms_are_refused() {
    for p in [Platform::Darwin, Platform::Windows] {
        assert_eq!(
            request_code(p, ControlOp::GetFlags),
            Err(ConfigError::UnsupportedPlatform)
        );
        assert_eq!(
            request_code(p, ControlOp::CreateTun),
            Err(ConfigError::UnsupportedPlatform)
        );
    }
}

#[test]
fn up_and_down_flag_words() {
    assert_eq!(up_flags(0), IFF_UP);
    assert_eq!(up_flags(0x1040), 0x1041);
    assert_eq!(down_flags(0x1041), 0x1040);
    assert_eq!(down_flags(0), 0);
    assert_eq!(down_flags(up_flags(0x8c42)), 0x8c42);
}
