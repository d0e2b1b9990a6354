use postgrestd::backtrace::{Backtrace, BacktraceStatus};
use postgrestd::error::ErrorKind;
use postgrestd::locks::{Condvar, Mutex};
use postgrestd::fs::{File, OpenOptions};
use postgrestd::net::{Ipv4Addr, SocketAddr, SocketAddrV4, TcpListener, TcpStream, UdpSocket};

#[test]
fn open_returns_unsupported_for_any_path_and_options() {
    let mut opts = OpenOptions::new();
    opts.read(true);
    let err = File::open("/etc/hostname", &opts).unwrap_err();
    assert_eq!(err.kind(), ErrorKind::Unsupported);
    assert_eq!(err.message(), "operation not supported on this platform");

    let mut wr = OpenOptions::new();
    wr.write(true);
    wr.create(true);
    assert_eq!(File::open("brand_new_file", &wr).unwrap_err().kind(), ErrorKind::Unsupported);
}

#[test]
fn tcp_connect_returns_unsupported() {
    let addr = SocketAddr::V4(SocketAddrV4 { ip: Ipv4Addr::new(127, 0, 0, 1), port: 80 });
    let err = TcpStream::connect(Ok(&addr)).unwrap_err();
    assert_eq!(err.kind(), ErrorKind::Unsupported);
    let err = TcpStream::connect_timeout(&addr, postgrestd::time::Duration::from_secs(1))
        .unwrap_err();
    assert_eq!(err.kind(), ErrorKind::Unsupported);
}

#[test]
fn bind_and_resolution_return_unsupported() {
    let addr = SocketAddr::V4(SocketAddrV4 { ip: Ipv4Addr::new(0, 0, 0, 0), port: 8080 });
    assert_eq!(TcpListener::bind(Ok(&addr)).unwrap_err().kind(), ErrorKind::Unsupported);
    assert_eq!(UdpSocket::bind(Ok(&addr)).unwrap_err().kind(), ErrorKind::Unsupported);
    assert_eq!(
        postgrestd::net::lookup_host("localhost:80").unwrap_err().kind(),
        ErrorKind::Unsupported
    );
    assert_eq!(
        postgrestd::net::lookup_host_port("localhost", 80).unwrap_err().kind(),
        ErrorKind::Unsupported
    );
    assert_eq!(postgrestd::net::cvt_gai(-2).unwrap_err().kind(), ErrorKind::Unsupported);
}

#[test]
fn socket_addresses_are_plain_data() {
    let ip = Ipv4Addr::new(10, 1, 2, 3);
    assert_eq!(ip.octets, [10, 1, 2, 3]);
    let v4 = SocketAddr::V4(SocketAddrV4 { ip, port: 443 });
    assert_eq!(v4.port(), 443);
    let ip6 = postgrestd::net::Ipv6Addr::new([0; 16]);
    let v6 = SocketAddr::V6(postgrestd::net::SocketAddrV6 {
        ip: ip6,
        port: 53,
        flowinfo: 0,
        scope_id: 0,
    });
    assert_eq!(v6.port(), 53);
}

#[test]
fn filesystem_operations_return_unsupported() {
    assert_eq!(postgrestd::fs::readdir("/").unwrap_err().kind(), ErrorKind::Unsupported);
    assert_eq!(postgrestd::fs::unlink("x").unwrap_err().kind(), ErrorKind::Unsupported);
    assert_eq!(postgrestd::fs::rename("a", "b").unwrap_err().kind(), ErrorKind::Unsupported);
    assert_eq!(postgrestd::fs::rmdir("d").unwrap_err().kind(), ErrorKind::Unsupported);
    assert_eq!(postgrestd::fs::remove_dir_all("d").unwrap_err().kind(), ErrorKind::Unsupported);
    assert_eq!(postgrestd::fs::try_exists("f").unwrap_err().kind(), ErrorKind::Unsupported);
    assert_eq!(postgrestd::fs::readlink("l").unwrap_err().kind(), ErrorKind::Unsupported);
    assert_eq!(postgrestd::fs::symlink("a", "b").unwrap_err().kind(), ErrorKind::Unsupported);
    assert_eq!(postgrestd::fs::link("a", "b").unwrap_err().kind(), ErrorKind::Unsupported);
    assert_eq!(postgrestd::fs::stat("f").unwrap_err().kind(), ErrorKind::Unsupported);
    assert_eq!(postgrestd::fs::lstat("f").unwrap_err().kind(), ErrorKind::Unsupported);
    assert_eq!(postgrestd::fs::canonicalize("f").unwrap_err().kind(), ErrorKind::Unsupported);
    assert_eq!(postgrestd::fs::copy("a", "b").unwrap_err().kind(), ErrorKind::Unsupported);
    assert_eq!(postgrestd::fs::chown("f", 0, 0).unwrap_err().kind(), ErrorKind::Unsupported);
    assert_eq!(postgrestd::fs::fchown(3, 0, 0).unwrap_err().kind(), ErrorKind::Unsupported);
    assert_eq!(postgrestd::fs::lchown("f", 0, 0).unwrap_err().kind(), ErrorKind::Unsupported);
    assert_eq!(postgrestd::fs::chroot("/j").unwrap_err().kind(), ErrorKind::Unsupported);
    assert_eq!(
        postgrestd::fs::DirBuilder::new().mkdir("d").unwrap_err().kind(),
        ErrorKind::Unsupported
    );
}

#[test]
fn pipes_and_threads_return_unsupported() {
    assert_eq!(postgrestd::pipe::anon_pipe().unwrap_err().kind(), ErrorKind::Unsupported);
    assert_eq!(
        postgrestd::thread::available_parallelism().unwrap_err().kind(),
        ErrorKind::Unsupported
    );
    assert_eq!(
        postgrestd::thread::Thread::new(65536, || ()).unwrap_err().kind(),
        ErrorKind::Unsupported
    );
}

#[test]
fn os_queries_are_inert() {
    assert_eq!(postgrestd::os::errno(), 0);
    assert_eq!(postgrestd::os::error_string(0), "operation successful");
    assert_eq!(postgrestd::os::getcwd().unwrap_err().kind(), ErrorKind::Unsupported);
    assert_eq!(postgrestd::os::chdir("/").unwrap_err().kind(), ErrorKind::Unsupported);
    assert_eq!(postgrestd::os::current_exe().unwrap_err().kind(), ErrorKind::Unsupported);
    assert_eq!(postgrestd::os::getenv("PATH"), None);
    assert_eq!(postgrestd::os::home_dir(), None);
    let e = postgrestd::os::setenv("K", "V").unwrap_err();
    assert_eq!(e.kind(), ErrorKind::Unsupported);
    assert_eq!(e.message(), "cannot set env vars on this platform");
    let e = postgrestd::os::unsetenv("K").unwrap_err();
    assert_eq!(e.kind(), ErrorKind::Unsupported);
    assert_eq!(e.message(), "cannot unset env vars on this platform");
    let e = postgrestd::os::join_paths(&vec![String::from("/a"), String::from("/b")]).unwrap_err();
    assert_eq!(e.message(), "not supported on this platform yet");
}

#[test]
fn backtraces_are_empty_and_unsupported() {
    let bt = Backtrace::capture();
    assert_eq!(bt.status(), BacktraceStatus::Unsupported);
    assert_eq!(bt.frames().len(), 0);
    assert_eq!(Backtrace::force_capture().status(), BacktraceStatus::Unsupported);
    assert_eq!(Backtrace::disabled().status(), BacktraceStatus::Disabled);
}

#[test]
fn locks_are_inert() {
    let m = Mutex::new();
    m.lock();
    m.unlock();
    assert!(m.try_lock());
    let c = Condvar::new();
    c.notify_one();
    c.notify_all();
}

#[test]
fn wrapped_entry_points_run_unchanged() {
    let v = postgrestd::backtrace::__rust_begin_short_backtrace(|| 41i32);
    assert_eq!(v, 41);
    let w = postgrestd::backtrace::__rust_end_short_backtrace(|| 42i32);
    assert_eq!(w, 42);
}
