use tuxmix::audio::{buffer_layout, OpenAction, Session};

#[test]
fn buffers_are_interleaved_24_bit_with_2_or_4_channels() {
    assert_eq!(buffer_layout(256, 4), (4, 3072));
    assert_eq!(buffer_layout(10, 1), (2, 60));
    assert_eq!(buffer_layout(10, 8), (4, 120));
    assert_eq!(buffer_layout(0, 2), (2, 0));
}

#[test]
fn session_is_shared_and_released_by_the_last_close() {
    let mut s = Session::new();
    assert_eq!(s.open_action(), OpenAction::OpenDevice);
    s.opened();
    // The capture stream of the same process shares the session.
    assert_eq!(s.open_action(), OpenAction::Share);
    s.opened();
    assert!(!s.closed());
    assert!(s.device_open);
    assert!(s.closed());
    assert!(!s.device_open);
    assert_eq!(s.refs, 0);
    assert_eq!(s.open_action(), OpenAction::OpenDevice);
}
