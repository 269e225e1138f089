use rxfetch::components::gpu::is_gpu;
use rxfetch::components::name::{
    after_failed_attempt, grown_capacity, up_to_null, ErrorCodes, LookupStep, PwuIdErr,
    SystemName, LOOKUP_ATTEMPTS,
};
use rxfetch::display::DisplayBytes;

#[test]
fn class_code_gpu() {
    assert!(is_gpu(0x0300));
    assert!(is_gpu(0x0380));
    assert!(!is_gpu(0x0200));
    assert!(!is_gpu(0x0003));
}

#[test]
fn lookup_retries_only_small_buffer() {
    assert_eq!(after_failed_attempt(0, PwuIdErr::BufferTooSmall), LookupStep::Retry);
    assert_eq!(
        after_failed_attempt(LOOKUP_ATTEMPTS - 2, PwuIdErr::BufferTooSmall),
        LookupStep::Retry
    );
    assert_eq!(
        after_failed_attempt(LOOKUP_ATTEMPTS - 1, PwuIdErr::BufferTooSmall),
        LookupStep::GrowThenGiveUp
    );
    assert_eq!(
        after_failed_attempt(0, PwuIdErr::NotFound(1000)),
        LookupStep::GiveUp(PwuIdErr::NotFound(1000))
    );
    assert_eq!(
        after_failed_attempt(3, PwuIdErr::SignalCaught),
        LookupStep::GiveUp(PwuIdErr::SignalCaught)
    );
}

#[test]
fn lookup_buffer_growth() {
    assert_eq!(grown_capacity(0), 128);
    assert_eq!(grown_capacity(64), 128);
    assert_eq!(grown_capacity(1024), 2048);
}

#[test]
fn field_cut_at_null() {
    assert_eq!(up_to_null(b"Linux\0\0\0"), b"Linux".to_vec());
    assert_eq!(up_to_null(b"abc"), b"abc".to_vec());
    assert_eq!(up_to_null(b"\0abc"), Vec::<u8>::new());
    assert_eq!(up_to_null(b""), Vec::<u8>::new());
}

#[test]
fn system_name_fields() {
    let n = SystemName::from_fields(b"Linux\0x", b"host\0", b"6.1\0", b"#1\0", b"x86_64\0", b"\0");
    assert_eq!(n.system().as_bytes(), b"Linux");
    assert_eq!(n.node().as_bytes(), b"host");
    assert_eq!(n.release().as_bytes(), b"6.1");
    assert_eq!(n.version().as_bytes(), b"#1");
    assert_eq!(n.machine().as_bytes(), b"x86_64");
    assert_eq!(n.domain().as_bytes(), b"");
    let e = SystemName::empty();
    assert!(e.node().as_bytes().is_empty());
}

#[test]
fn display_bytes_keeps_bytes() {
    let d = DisplayBytes::new(&[0xff, b'a']);
    assert_eq!(d.as_bytes(), &[0xff, b'a']);
}

#[test]
fn display_bytes_replaces_invalid_utf8() {
    assert_eq!(DisplayBytes::new(&[0xff, b'a']).to_string(), "\u{FFFD}a");
    assert_eq!(DisplayBytes::new(b"host").to_string(), "host");
    assert_eq!(DisplayBytes::new(b"").to_string(), "");
}

#[test]
fn lookup_error_codes_map_to_kinds() {
    let codes = ErrorCodes { eintr: 4, eio: 5, emfile: 24, enfile: 23, erange: 34 };
    assert_eq!(PwuIdErr::from_code(4, 7, &codes), PwuIdErr::SignalCaught);
    assert_eq!(PwuIdErr::from_code(5, 7, &codes), PwuIdErr::IOErr);
    assert_eq!(PwuIdErr::from_code(24, 7, &codes), PwuIdErr::InsufficientProcessFds);
    assert_eq!(PwuIdErr::from_code(23, 7, &codes), PwuIdErr::InsufficientSystemFds);
    assert_eq!(PwuIdErr::from_code(34, 7, &codes), PwuIdErr::BufferTooSmall);
    assert_eq!(PwuIdErr::from_code(0, 7, &codes), PwuIdErr::NotFound(7));
    assert_eq!(PwuIdErr::from_code(2, 1000, &codes), PwuIdErr::NotFound(1000));
}
