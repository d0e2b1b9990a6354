use postgrestd::common::{
    cvt_unsup, needs_reopen, retry_decision, sigpipe_disposition, RetryStep, SigpipeDisposition,
    POLLNVAL, SIGPIPE_INHERIT, SIGPIPE_SIG_DFL, SIGPIPE_SIG_IGN,
};
use postgrestd::error::ErrorKind;
use postgrestd::fs::OpenOptions;
use postgrestd::numfmt::{i32_to_decimal, u32_to_decimal, u32_to_hex};
use postgrestd::rand::{
    getrandom_decision, getrandom_flags, grnd_insecure_still_available, hashmap_random_keys,
    keys_from_bytes, urandom_decision, DeviceReadStep, EntropyStep, GRND_INSECURE, GRND_NONBLOCK,
};
use postgrestd::thread::{sleep_remaining, sleep_request, SleepOutcome};

#[test]
fn decimal_rendering_matches_the_standard_formatter() {
    for n in [0u32, 1, 9, 10, 99, 100, 12345, u32::MAX] {
        assert_eq!(u32_to_decimal(n), format!("{n}"));
    }
    for n in [0i32, 7, -1, -42, i32::MAX, i32::MIN] {
        assert_eq!(i32_to_decimal(n), format!("{n}"));
    }
}

#[test]
fn hex_rendering_matches_the_standard_formatter() {
    for n in [0u32, 1, 15, 16, 255, 0xdead_beef, u32::MAX] {
        assert_eq!(u32_to_hex(n), format!("{n:#x}"));
    }
}

#[test]
fn cvt_translates_minus_one_to_unsupported() {
    assert_eq!(cvt_unsup(-1i32).unwrap_err().kind(), ErrorKind::Unsupported);
    assert_eq!(cvt_unsup(0i32).unwrap(), 0);
    assert_eq!(cvt_unsup(17i64).unwrap(), 17);
    assert_eq!(cvt_unsup(-1isize).unwrap_err().kind(), ErrorKind::Unsupported);
    assert_eq!(cvt_unsup(-1i8).unwrap_err().kind(), ErrorKind::Unsupported);
    assert_eq!(cvt_unsup(3i16).unwrap(), 3);
}

#[test]
fn retry_decision_retries_exactly_on_interruption() {
    assert_eq!(retry_decision(false, ErrorKind::Interrupted), RetryStep::Done);
    assert_eq!(retry_decision(false, ErrorKind::NotFound), RetryStep::Done);
    assert_eq!(retry_decision(true, ErrorKind::Interrupted), RetryStep::Retry);
    assert_eq!(retry_decision(true, ErrorKind::NotFound), RetryStep::Fail);
    assert_eq!(retry_decision(true, ErrorKind::Uncategorized), RetryStep::Fail);
}

#[test]
fn poll_reopen_decision_matches_the_native_bit() {
    assert_eq!(POLLNVAL as i16, libc::POLLNVAL);
    assert!(needs_reopen(libc::POLLNVAL));
    assert!(needs_reopen(libc::POLLNVAL | 1));
    assert!(!needs_reopen(0));
    assert!(!needs_reopen(1));
}

#[test]
fn sigpipe_dispositions_cover_the_three_encodings() {
    assert_eq!(sigpipe_disposition(SIGPIPE_INHERIT), SigpipeDisposition::Inherit);
    assert_eq!(sigpipe_disposition(SIGPIPE_SIG_IGN), SigpipeDisposition::Ignore);
    assert_eq!(sigpipe_disposition(SIGPIPE_SIG_DFL), SigpipeDisposition::Default);
}

#[test]
fn restricted_hash_keys_are_fixed() {
    assert_eq!(hashmap_random_keys(), (1, 2));
}

#[test]
fn keys_are_assembled_in_native_byte_order() {
    let mut bytes = [0u8; 16];
    bytes[0] = 0x11;
    bytes[8] = 0x22;
    bytes[15] = 0xff;
    let (a, b) = keys_from_bytes(&bytes);
    assert_eq!(a, u64::from_ne_bytes(bytes[0..8].try_into().unwrap()));
    assert_eq!(b, u64::from_ne_bytes(bytes[8..16].try_into().unwrap()));
}

#[test]
fn entropy_call_decisions_follow_the_native_errors() {
    assert_eq!(getrandom_decision(16, 0), EntropyStep::Progress(16));
    assert_eq!(getrandom_decision(0, 0), EntropyStep::Progress(0));
    assert_eq!(getrandom_decision(-1, libc::EINTR), EntropyStep::Retry);
    assert_eq!(getrandom_decision(-1, libc::ENOSYS), EntropyStep::Fallback);
    assert_eq!(getrandom_decision(-1, libc::EPERM), EntropyStep::Fallback);
    assert_eq!(getrandom_decision(-1, libc::EAGAIN), EntropyStep::Fallback);
    assert_eq!(getrandom_flags(true), GRND_INSECURE);
    assert_eq!(getrandom_flags(false), GRND_NONBLOCK);
    assert_eq!(GRND_INSECURE, libc::GRND_INSECURE);
    assert_eq!(GRND_NONBLOCK, libc::GRND_NONBLOCK);
    assert!(!grnd_insecure_still_available(-1, libc::EINVAL));
    assert!(grnd_insecure_still_available(-1, libc::EINTR));
    assert!(grnd_insecure_still_available(8, 0));
}

#[test]
fn device_read_decisions_retry_only_on_interruption() {
    assert_eq!(urandom_decision(12, 0), DeviceReadStep::Progress(12));
    assert_eq!(urandom_decision(0, libc::EINTR), DeviceReadStep::Retry);
    assert_eq!(urandom_decision(-1, libc::EINTR), DeviceReadStep::Retry);
    assert_eq!(urandom_decision(0, 0), DeviceReadStep::Stop);
    assert_eq!(urandom_decision(-1, libc::EIO), DeviceReadStep::Stop);
}

#[test]
fn sleep_bookkeeping_caps_and_recomputes() {
    assert_eq!(sleep_request(5, 100), (5, 100));
    assert_eq!(sleep_request(u64::MAX, 0), (i64::MAX, 0));
    assert_eq!(sleep_remaining(5, 5, SleepOutcome::Completed), (0, 0));
    assert_eq!(sleep_remaining(10, 4, SleepOutcome::Completed), (6, 0));
    assert_eq!(sleep_remaining(10, 4, SleepOutcome::Interrupted(3, 500)), (9, 500));
}

#[test]
fn access_mode_flags_match_the_native_values() {
    assert_eq!(postgrestd::fs::O_RDONLY, libc::O_RDONLY);
    assert_eq!(postgrestd::fs::O_WRONLY, libc::O_WRONLY);
    assert_eq!(postgrestd::fs::O_RDWR, libc::O_RDWR);
    assert_eq!(postgrestd::fs::O_APPEND, libc::O_APPEND);
    assert_eq!(postgrestd::fs::O_CREAT, libc::O_CREAT);
    assert_eq!(postgrestd::fs::O_TRUNC, libc::O_TRUNC);
    assert_eq!(postgrestd::fs::O_EXCL, libc::O_EXCL);
}

#[test]
fn access_mode_follows_the_requested_flags() {
    let mut o = OpenOptions::new();
    o.read(true);
    assert_eq!(o.get_access_mode().unwrap(), libc::O_RDONLY);
    let mut o = OpenOptions::new();
    o.write(true);
    assert_eq!(o.get_access_mode().unwrap(), libc::O_WRONLY);
    let mut o = OpenOptions::new();
    o.read(true);
    o.write(true);
    assert_eq!(o.get_access_mode().unwrap(), libc::O_RDWR);
    let mut o = OpenOptions::new();
    o.append(true);
    assert_eq!(o.get_access_mode().unwrap(), libc::O_WRONLY | libc::O_APPEND);
    let mut o = OpenOptions::new();
    o.read(true);
    o.append(true);
    assert_eq!(o.get_access_mode().unwrap(), libc::O_RDWR | libc::O_APPEND);
    let o = OpenOptions::new();
    let e = o.get_access_mode().unwrap_err();
    assert_eq!(e.kind(), ErrorKind::InvalidInput);
    assert_eq!(e.raw_os_error(), Some(libc::EINVAL));
}

#[test]
fn creation_mode_validates_the_flag_combinations() {
    let mut o = OpenOptions::new();
    o.write(true);
    assert_eq!(o.get_creation_mode().unwrap(), 0);
    o.create(true);
    assert_eq!(o.get_creation_mode().unwrap(), libc::O_CREAT);
    o.truncate(true);
    assert_eq!(o.get_creation_mode().unwrap(), libc::O_CREAT | libc::O_TRUNC);
    o.create_new(true);
    assert_eq!(o.get_creation_mode().unwrap(), libc::O_CREAT | libc::O_EXCL);

    // Truncating without writing is contradictory.
    let mut bad = OpenOptions::new();
    bad.read(true);
    bad.truncate(true);
    let e = bad.get_creation_mode().unwrap_err();
    assert_eq!(e.kind(), ErrorKind::InvalidInput);

    // Appending plus truncating needs create-new.
    let mut bad = OpenOptions::new();
    bad.append(true);
    bad.truncate(true);
    assert_eq!(bad.get_creation_mode().unwrap_err().kind(), ErrorKind::InvalidInput);
    bad.create_new(true);
    assert_eq!(bad.get_creation_mode().unwrap(), libc::O_CREAT | libc::O_EXCL);
}
