use postgrestd::process::{signal_string, ExitStatus};

#[test]
fn normal_exit_zero_is_success() {
    let es = ExitStatus::new(0);
    assert!(es.success());
    assert_eq!(es.code(), Some(0));
    assert_eq!(es.signal(), None);
    assert!(!es.core_dumped());
    assert_eq!(es.stopped_signal(), None);
    assert!(!es.continued());
    assert!(es.exit_ok().is_ok());
}

#[test]
fn normal_exit_nonzero_reports_its_code() {
    let es = ExitStatus::new(3 << 8);
    assert!(!es.success());
    assert_eq!(es.code(), Some(3));
    let err = es.exit_ok().unwrap_err();
    assert_eq!(err.code(), Some(3));
    assert_eq!(err.into_status(), es);
}

#[test]
fn signal_termination_reports_the_signal() {
    let es = ExitStatus::new(libc::SIGKILL);
    assert!(!es.success());
    assert_eq!(es.code(), None);
    assert_eq!(es.signal(), Some(libc::SIGKILL));
    assert!(!es.core_dumped());
}

#[test]
fn core_dump_flag_is_reported_with_the_signal() {
    let es = ExitStatus::new(libc::SIGSEGV | 0x80);
    assert_eq!(es.signal(), Some(libc::SIGSEGV));
    assert!(es.core_dumped());
}

#[test]
fn stopped_and_continued_are_decoded() {
    let stopped = ExitStatus::new((libc::SIGSTOP << 8) | 0x7f);
    assert_eq!(stopped.stopped_signal(), Some(libc::SIGSTOP));
    assert_eq!(stopped.code(), None);
    assert_eq!(stopped.signal(), None);
    let continued = ExitStatus::new(0xffff);
    assert!(continued.continued());
    assert_eq!(continued.signal(), None);
    assert_eq!(continued.code(), None);
}

#[test]
fn decode_agrees_with_the_native_macros() {
    let mut statuses: Vec<i32> = Vec::new();
    for code in [0, 1, 2, 77, 255] {
        statuses.push(code << 8);
    }
    for sig in 1..=31 {
        statuses.push(sig);
        statuses.push(sig | 0x80);
        statuses.push((sig << 8) | 0x7f);
    }
    statuses.push(0xffff);
    statuses.push(0x1234);
    statuses.push(-1);
    for &st in &statuses {
        let es = ExitStatus::new(st);
        assert_eq!(es.exited(), libc::WIFEXITED(st), "status {st:#x}");
        if libc::WIFEXITED(st) {
            assert_eq!(es.code(), Some(libc::WEXITSTATUS(st)), "status {st:#x}");
        } else {
            assert_eq!(es.code(), None, "status {st:#x}");
        }
        assert_eq!(es.signal().is_some(), libc::WIFSIGNALED(st), "status {st:#x}");
        if libc::WIFSIGNALED(st) {
            assert_eq!(es.signal(), Some(libc::WTERMSIG(st)), "status {st:#x}");
            assert_eq!(es.core_dumped(), libc::WCOREDUMP(st), "status {st:#x}");
        }
        assert_eq!(es.stopped_signal().is_some(), libc::WIFSTOPPED(st), "status {st:#x}");
        if libc::WIFSTOPPED(st) {
            assert_eq!(es.stopped_signal(), Some(libc::WSTOPSIG(st)), "status {st:#x}");
        }
        assert_eq!(es.continued(), libc::WIFCONTINUED(st), "status {st:#x}");
    }
}

#[test]
fn into_raw_returns_the_wrapped_status() {
    assert_eq!(ExitStatus::new(0x1234).into_raw(), 0x1234);
}

#[test]
fn signal_names_match_the_native_numbers() {
    assert_eq!(signal_string(libc::SIGHUP), " (SIGHUP)");
    assert_eq!(signal_string(libc::SIGINT), " (SIGINT)");
    assert_eq!(signal_string(libc::SIGQUIT), " (SIGQUIT)");
    assert_eq!(signal_string(libc::SIGILL), " (SIGILL)");
    assert_eq!(signal_string(libc::SIGTRAP), " (SIGTRAP)");
    assert_eq!(signal_string(libc::SIGABRT), " (SIGABRT)");
    assert_eq!(signal_string(libc::SIGBUS), " (SIGBUS)");
    assert_eq!(signal_string(libc::SIGFPE), " (SIGFPE)");
    assert_eq!(signal_string(libc::SIGKILL), " (SIGKILL)");
    assert_eq!(signal_string(libc::SIGUSR1), " (SIGUSR1)");
    assert_eq!(signal_string(libc::SIGSEGV), " (SIGSEGV)");
    assert_eq!(signal_string(libc::SIGUSR2), " (SIGUSR2)");
    assert_eq!(signal_string(libc::SIGPIPE), " (SIGPIPE)");
    assert_eq!(signal_string(libc::SIGALRM), " (SIGALRM)");
    assert_eq!(signal_string(libc::SIGTERM), " (SIGTERM)");
    assert_eq!(signal_string(libc::SIGSTKFLT), " (SIGSTKFLT)");
    assert_eq!(signal_string(libc::SIGCHLD), " (SIGCHLD)");
    assert_eq!(signal_string(libc::SIGCONT), " (SIGCONT)");
    assert_eq!(signal_string(libc::SIGSTOP), " (SIGSTOP)");
    assert_eq!(signal_string(libc::SIGTSTP), " (SIGTSTP)");
    assert_eq!(signal_string(libc::SIGTTIN), " (SIGTTIN)");
    assert_eq!(signal_string(libc::SIGTTOU), " (SIGTTOU)");
    assert_eq!(signal_string(libc::SIGURG), " (SIGURG)");
    assert_eq!(signal_string(libc::SIGXCPU), " (SIGXCPU)");
    assert_eq!(signal_string(libc::SIGXFSZ), " (SIGXFSZ)");
    assert_eq!(signal_string(libc::SIGVTALRM), " (SIGVTALRM)");
    assert_eq!(signal_string(libc::SIGPROF), " (SIGPROF)");
    assert_eq!(signal_string(libc::SIGWINCH), " (SIGWINCH)");
    assert_eq!(signal_string(libc::SIGIO), " (SIGIO)");
    assert_eq!(signal_string(libc::SIGPWR), " (SIGPWR)");
    assert_eq!(signal_string(libc::SIGSYS), " (SIGSYS)");
    assert_eq!(signal_string(0), "");
    assert_eq!(signal_string(99), "");
}

#[test]
fn display_renders_each_outcome() {
    assert_eq!(ExitStatus::new(0).to_display_string(), "exit status: 0");
    assert_eq!(ExitStatus::new(3 << 8).to_display_string(), "exit status: 3");
    assert_eq!(ExitStatus::new(9).to_display_string(), "signal: 9 (SIGKILL)");
    assert_eq!(
        ExitStatus::new(11 | 0x80).to_display_string(),
        "signal: 11 (SIGSEGV) (core dumped)"
    );
    assert_eq!(
        ExitStatus::new((19 << 8) | 0x7f).to_display_string(),
        "stopped (not terminated) by signal: 19 (SIGSTOP)"
    );
    assert_eq!(ExitStatus::new(0xffff).to_display_string(), "continued (WIFCONTINUED)");
    assert_eq!(ExitStatus::new(0x1234).to_display_string(), "signal: 52");
    assert_eq!(
        ExitStatus::new(0xff).to_display_string(),
        format!("unrecognised wait status: {} {:#x}", 0xff, 0xff)
    );
}
