use sysfs_gpio::channel::write_file_bytes;
use sysfs_gpio::{EdgeSource, Error, Pin, PinPoller};

// A file the kernel lets a multiplexer watch for priority readiness and
// whose content never changes while these tests run: the mount table.
const QUIET_PRI_FILE: &[u8] = b"/proc/self/mounts";

#[test]
fn construction_fails_with_io_when_pin_dir_is_missing() {
    // pin 60 is not exported here (there is no GPIO sysfs at all), so the
    // value attribute cannot be opened: construction fails with the OS
    // error for a missing file, and no multiplexer context is ever
    // created (the open comes first; nothing is left to release).
    match PinPoller::new(60) {
        Err(Error::Io(errno)) => assert_eq!(errno, nix::errno::Errno::ENOENT as i32),
        other => panic!("wanted Io, got {:?}", other),
    }
}

#[test]
fn poll_zero_timeout_on_quiet_pin_returns_no_change() {
    // a source on a watchable file that never signals: poll with a zero
    // timeout comes back at once with "no change", not an error
    let source = EdgeSource::open(QUIET_PRI_FILE).expect("mount table should open");
    let mut poller = PinPoller::from_source(60, source);
    assert_eq!(None, poller.poll(0).unwrap());
    // and again: still no change
    assert_eq!(None, poller.poll(0).unwrap());
}

#[test]
fn registration_failure_releases_the_context_and_surfaces_io() {
    // a regular file cannot be registered with the multiplexer: the
    // registration fails with EPERM, and construction releases both the
    // context and the descriptor before the error propagates
    let path = b"/tmp/sysfs_gpio_regfile_test";
    write_file_bytes(path, b"1\n").expect("temp file should be writable");
    match EdgeSource::open(path) {
        Err(Error::Io(errno)) => assert_eq!(errno, nix::errno::Errno::EPERM as i32),
        other => panic!("wanted Io(EPERM), got {:?}", other),
    }
}

#[test]
fn interpret_wait_zero_means_no_change_and_no_read() {
    let source = EdgeSource::open(QUIET_PRI_FILE).expect("mount table should open");
    let poller = PinPoller::from_source(60, source);
    // zero ready events resolve to "no change" without touching the file
    assert_eq!(None, poller.interpret_wait(0).unwrap());
    // one ready event forces exactly one re-read, whose parse is
    // surfaced: the mount table is not a 0/1 value, so it is Unexpected
    match poller.interpret_wait(1) {
        Err(Error::Unexpected(_)) => {}
        other => panic!("wanted Unexpected, got {:?}", other),
    }
}

#[test]
fn spurious_first_notification_after_registration() {
    // a sysfs attribute reports priority readiness right after
    // registration, before any real change: the blocking poller hands
    // that first notification to the caller as a fresh read of the value
    // (the stream adapters are the ones that suppress it).  Skipped
    // quietly when this kernel offers no such attribute.
    let source = match EdgeSource::open(b"/sys/kernel/profiling") {
        Ok(s) => s,
        Err(_) => return,
    };
    let mut poller = PinPoller::from_source(0, source);
    match poller.poll(0) {
        Ok(Some(v)) => assert!(v == 0 || v == 1),
        // a kernel without the spurious notification reports no change
        Ok(None) => {}
        Err(e) => panic!("poll should not fail: {:?}", e),
    }
}

#[test]
fn poller_hands_back_its_pin() {
    let source = EdgeSource::open(QUIET_PRI_FILE).expect("mount table should open");
    let poller = PinPoller::from_source(9, source);
    assert_eq!(9, poller.get_pin().get_pin_num());
}

#[test]
fn pin_operations_surface_io_without_sysfs() {
    let pin = Pin::new(60);
    assert!(!pin.is_exported());
    match pin.get_value() {
        Err(Error::Io(errno)) => assert_eq!(errno, nix::errno::Errno::ENOENT as i32),
        other => panic!("wanted Io, got {:?}", other),
    }
    assert!(matches!(pin.set_value(1), Err(Error::Io(_))));
    assert!(matches!(pin.get_direction(), Err(Error::Io(_))));
    assert!(matches!(pin.get_poller(), Err(Error::Io(_))));
    assert!(matches!(pin.get_async_poller(), Err(Error::Io(_))));
    assert!(matches!(pin.get_stream(), Err(Error::Io(_))));
    assert!(matches!(pin.get_value_stream(), Err(Error::Io(_))));
    // exporting cannot reach the control file either; the closure never runs
    match pin.with_exported(|| panic!("closure must not run")) {
        Err(e) => assert!(e.is_io()),
        Ok(()) => panic!("export cannot succeed here"),
    }
}

#[test]
fn dropping_pollers_releases_their_descriptors() {
    // each construction takes descriptors and each drop releases them:
    // thousands of rounds cannot exhaust the descriptor table, so none is
    // leaked — and none is released twice, which would be fatal here
    for _ in 0..2000 {
        let source = EdgeSource::open(QUIET_PRI_FILE).expect("open must keep succeeding");
        let poller = PinPoller::from_source(1, source);
        drop(poller);
    }
    // the stream adapters release their descriptor the same way
    for _ in 0..2000 {
        let poller =
            sysfs_gpio::AsyncPinPoller::open(QUIET_PRI_FILE).expect("open must keep succeeding");
        drop(sysfs_gpio::PinValueStream::from_stream(
            sysfs_gpio::PinStream::from_poller(poller),
        ));
    }
}

#[test]
fn error_io_query() {
    assert!(Error::Io(2).is_io());
    assert!(!Error::Unexpected(String::new()).is_io());
    assert!(!Error::InvalidPath(String::new()).is_io());
    assert!(!Error::Unsupported(String::new()).is_io());
}
