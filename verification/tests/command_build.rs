use postgrestd::process::{ChildStdio, CString, CStringArray, Command, ExitCode, PtrSlot, Stdio};

#[test]
fn cstring_appends_exactly_one_terminator() {
    let c = CString::new(b"abc").expect("no embedded NUL");
    assert_eq!(c.as_bytes_with_nul(), b"abc\0");
}

#[test]
fn cstring_rejects_embedded_nul() {
    assert!(CString::new(b"a\0b").is_none());
    assert!(CString::new(b"\0").is_none());
    assert!(CString::new(b"").is_some());
}

#[test]
fn pointer_table_stays_in_lock_step_with_pushes() {
    let mut a = CStringArray::with_capacity(2);
    assert_eq!(a.len(), 0);
    assert_eq!(a.table_len(), 1);
    assert_eq!(a.ptr_slot(0), PtrSlot::Null);

    a.push(CString::new(b"A").unwrap());
    a.push(CString::new(b"B").unwrap());

    assert_eq!(a.len(), 2);
    assert_eq!(a.table_len(), 3);
    assert_eq!(a.ptr_slot(0), PtrSlot::Item(0));
    assert_eq!(a.ptr_slot(1), PtrSlot::Item(1));
    assert_eq!(a.ptr_slot(2), PtrSlot::Null);
    assert_eq!(a.get_item(0).as_bytes_with_nul(), b"A\0");
    assert_eq!(a.get_item(1).as_bytes_with_nul(), b"B\0");
}

#[test]
fn trailing_null_is_always_present_and_last() {
    let mut a = CStringArray::with_capacity(4);
    for word in [&b"one"[..], b"two", b"three", b"four"] {
        a.push(CString::new(word).unwrap());
        assert_eq!(a.table_len(), a.len() + 1);
        assert_eq!(a.ptr_slot(a.len()), PtrSlot::Null);
        for i in 0..a.len() {
            assert_eq!(a.ptr_slot(i), PtrSlot::Item(i));
        }
    }
}

#[test]
fn command_accumulates_its_configuration() {
    let mut cmd = Command::new(b"/bin/echo");
    cmd.arg(b"hello");
    cmd.arg(b"world");
    cmd.cwd(b"/tmp");
    cmd.uid(7);
    cmd.gid(8);
    cmd.groups(&[1, 2, 3]);
    cmd.pgroup(42);
    assert_eq!(cmd.get_program().as_slice(), b"/bin/echo");
    assert_eq!(cmd.get_current_dir().as_ref().map(|d| d.as_slice()), Some(&b"/tmp"[..]));
    assert_eq!(cmd.get_uid(), Some(7));
    assert_eq!(cmd.get_gid(), Some(8));
    assert_eq!(cmd.get_groups().as_ref().map(|g| g.as_slice()), Some(&[1u32, 2, 3][..]));
    assert_eq!(cmd.get_pgroup(), Some(42));
    assert!(!cmd.saw_nul());
    assert!(!cmd.get_create_pidfd());
    assert!(!cmd.env_saw_path());
    assert!(!cmd.program_is_path());

    let mut args = cmd.get_args();
    assert_eq!(args.remaining(), 2);
    assert_eq!(args.next_arg().map(|a| a.as_slice()), Some(&b"hello"[..]));
    assert_eq!(args.next_arg().map(|a| a.as_slice()), Some(&b"world"[..]));
    assert!(args.next_arg().is_none());
}

#[test]
fn embedded_nul_sets_the_flag_instead_of_panicking() {
    let cmd = Command::new(b"bad\0name");
    assert!(cmd.saw_nul());
    let mut ok = Command::new(b"fine");
    assert!(!ok.saw_nul());
    ok.arg(b"also\0bad");
    assert!(ok.saw_nul());
    let mut dir = Command::new(b"fine");
    dir.cwd(b"/t\0mp");
    assert!(dir.saw_nul());
}

#[test]
fn spawn_and_exec_are_unsupported() {
    let mut cmd = Command::new(b"/bin/true");
    let err = match cmd.spawn(Stdio::Inherit, false) {
        Ok(_) => panic!("spawning must fail on this platform"),
        Err(e) => e,
    };
    assert_eq!(err.kind(), postgrestd::error::ErrorKind::Unsupported);
    let e = cmd.exec(Stdio::Inherit);
    assert_eq!(e.kind(), postgrestd::error::ErrorKind::Unsupported);
    let io = match cmd.setup_io(Stdio::Null, true) {
        Ok(_) => panic!("stdio setup must fail on this platform"),
        Err(e) => e,
    };
    assert_eq!(io.kind(), postgrestd::error::ErrorKind::Unsupported);
    assert!(cmd.capture_env().is_none());
}

#[test]
fn exit_code_maps_zero_to_success() {
    assert_eq!(ExitCode::success().as_i32(), 0);
    assert_eq!(ExitCode::failure().as_i32(), 1);
    assert_eq!(ExitCode::from(0u8).as_i32(), 0);
    assert_eq!(ExitCode::from(1u8).as_i32(), 1);
    assert_eq!(ExitCode::from(255u8).as_i32(), 1);
}

#[test]
fn child_stdio_reports_explicit_descriptors() {
    assert_eq!(ChildStdio::Inherit.fd(), None);
    assert_eq!(ChildStdio::Explicit(5).fd(), Some(5));
}
