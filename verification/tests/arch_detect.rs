use netpwn::arch::{detect_class, ExecutableClass};
use netpwn::errors::LaunchError;

#[test]
fn detects_thirty_two_bit_class() {
    let header: [u8; 5] = [0x7f, 0x45, 0x4c, 0x46, 1];
    assert_eq!(detect_class(&header), Ok(ExecutableClass::ThirtyTwoBit));
}

#[test]
fn detects_sixty_four_bit_class() {
    let header: [u8; 5] = [0x7f, 0x45, 0x4c, 0x46, 2];
    assert_eq!(detect_class(&header), Ok(ExecutableClass::SixtyFourBit));
}

#[test]
fn rejects_wrong_magic() {
    let header: [u8; 5] = [0x7e, 0x45, 0x4c, 0x46, 2];
    assert_eq!(detect_class(&header), Err(LaunchError::UnsupportedExecutable));
    let header: [u8; 5] = [0x7f, 0x45, 0x4c, 0x47, 1];
    assert_eq!(detect_class(&header), Err(LaunchError::UnsupportedExecutable));
    let header: [u8; 5] = [0, 0, 0, 0, 1];
    assert_eq!(detect_class(&header), Err(LaunchError::UnsupportedExecutable));
}

#[test]
fn rejects_unknown_class_byte() {
    let header: [u8; 5] = [0x7f, 0x45, 0x4c, 0x46, 0];
    assert_eq!(detect_class(&header), Err(LaunchError::UnsupportedExecutable));
    let header: [u8; 5] = [0x7f, 0x45, 0x4c, 0x46, 3];
    assert_eq!(detect_class(&header), Err(LaunchError::UnsupportedExecutable));
    let header: [u8; 5] = [0x7f, 0x45, 0x4c, 0x46, 0xff];
    assert_eq!(detect_class(&header), Err(LaunchError::UnsupportedExecutable));
}

#[test]
fn unsupported_executable_message() {
    assert_eq!(
        LaunchError::UnsupportedExecutable.message(),
        "Unknown executable file type"
    );
}
