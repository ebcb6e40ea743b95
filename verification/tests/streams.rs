use sysfs_gpio::channel::write_file_bytes;
use sysfs_gpio::stream::{needs_rearm, surfaces_item};
use sysfs_gpio::{AsyncPinPoller, Error, PinStream, PinValueStream, StreamStep};

fn stream_on(path: &[u8], content: &[u8]) -> PinStream {
    write_file_bytes(path, content).expect("temp file should be writable");
    let poller = AsyncPinPoller::open(path).expect("temp file should open");
    PinStream::from_poller(poller)
}

#[test]
fn first_notification_is_suppressed_then_each_surfaces() {
    let mut s = stream_on(b"/tmp/sysfs_gpio_stream_steps", b"1\n");
    // nothing signalled: suspend
    assert_eq!(StreamStep::Pending, s.poll(false));
    // the first notification of the stream's lifetime is discarded
    assert_eq!(StreamStep::SuppressedFirst, s.poll(true));
    // the second and every later notification surfaces exactly one edge
    assert_eq!(StreamStep::EdgeReady, s.poll(true));
    assert_eq!(StreamStep::Pending, s.poll(false));
    assert_eq!(StreamStep::EdgeReady, s.poll(true));
}

#[test]
fn rearm_exactly_on_consumed_notifications() {
    // interest is re-armed exactly when a notification was consumed,
    // surfaced or suppressed; a pending step re-arms nothing
    assert!(!needs_rearm(&StreamStep::Pending));
    assert!(needs_rearm(&StreamStep::SuppressedFirst));
    assert!(needs_rearm(&StreamStep::EdgeReady));
    assert!(!surfaces_item(&StreamStep::Pending));
    assert!(!surfaces_item(&StreamStep::SuppressedFirst));
    assert!(surfaces_item(&StreamStep::EdgeReady));
}

#[test]
fn one_surfaced_event_per_notification_not_per_toggle() {
    let path = b"/tmp/sysfs_gpio_stream_coalesce";
    let mut s = stream_on(path, b"0\n");
    assert_eq!(StreamStep::SuppressedFirst, s.poll(true));
    // the value toggles twice before the consumer polls again; whether
    // the OS coalesces those into one notification is its business — the
    // stream surfaces exactly one edge per notification it is handed
    write_file_bytes(path, b"1\n").unwrap();
    write_file_bytes(path, b"0\n").unwrap();
    assert_eq!(StreamStep::EdgeReady, s.poll(true));
    // no further notification was delivered, so nothing more surfaces
    assert_eq!(StreamStep::Pending, s.poll(false));
}

#[test]
fn value_stream_rereads_after_each_surfaced_edge() {
    let path = b"/tmp/sysfs_gpio_value_stream";
    let mut s = PinValueStream::from_stream(stream_on(path, b"1\n"));
    // the spurious first notification surfaces no item and reads nothing
    assert_eq!(None, s.poll(true).unwrap());
    // each surfaced edge yields the value as read after the edge
    assert_eq!(Some(1), s.poll(true).unwrap());
    write_file_bytes(path, b"0\n").unwrap();
    assert_eq!(Some(0), s.poll(true).unwrap());
    // no readiness, no item
    assert_eq!(None, s.poll(false).unwrap());
}

#[test]
fn value_stream_does_not_filter_duplicates() {
    let path = b"/tmp/sysfs_gpio_value_dupes";
    let mut s = PinValueStream::from_stream(stream_on(path, b"1\n"));
    assert_eq!(None, s.poll(true).unwrap());
    // the pin toggled and toggled back before each re-read: consecutive
    // equal values surface unfiltered
    assert_eq!(Some(1), s.poll(true).unwrap());
    assert_eq!(Some(1), s.poll(true).unwrap());
}

#[test]
fn value_stream_surfaces_parse_failures() {
    let path = b"/tmp/sysfs_gpio_value_junk";
    let mut s = PinValueStream::from_stream(stream_on(path, b"x\n"));
    assert_eq!(None, s.poll(true).unwrap());
    match s.poll(true) {
        Err(Error::Unexpected(m)) => assert_eq!(m, "x\n"),
        other => panic!("wanted Unexpected, got {:?}", other),
    }
}

#[test]
fn value_stream_reads_current_value() {
    let path = b"/tmp/sysfs_gpio_value_read";
    let s = PinValueStream::from_stream(stream_on(path, b"0\n"));
    assert_eq!(0, s.get_value().unwrap());
    write_file_bytes(path, b"1\n").unwrap();
    assert_eq!(1, s.get_value().unwrap());
}

#[test]
fn adapter_exposes_one_descriptor_identity() {
    let path = b"/tmp/sysfs_gpio_adapter_fd";
    write_file_bytes(path, b"0\n").unwrap();
    let poller = AsyncPinPoller::open(path).unwrap();
    let fd = poller.raw_fd();
    assert!(fd >= 0);
    // the identity is stable: it is the same descriptor every time
    assert_eq!(fd, poller.raw_fd());
    assert_eq!(0, poller.read_value().unwrap());
}
