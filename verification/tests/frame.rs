use sump_monitor::frame::{Frame, FRAME_LEN};

#[test]
fn test_frame_off() {
    assert_eq!(
        Some(Frame { stamp: 100, pump_on: false }),
        Frame::parse(&[0, 0, 0, 0, 0, 0, 0, 100, 0, 0, 0, 0])
    );
}

#[test]
fn test_frame_on() {
    assert_eq!(
        Some(Frame { stamp: 0x0123456789abcdef, pump_on: true }),
        Frame::parse(&[0x01, 0x23, 0x45, 0x67, 0x89, 0xab, 0xcd, 0xef, 0, 0, 0, 1])
    );
    // Any flag but zero says that the pump is on.
    assert_eq!(
        Some(Frame { stamp: 1, pump_on: true }),
        Frame::parse(&[0, 0, 0, 0, 0, 0, 0, 1, 0x80, 0, 0, 0])
    );
    assert_eq!(
        Some(Frame { stamp: u64::MAX, pump_on: true }),
        Frame::parse(&[0xff; 12])
    );
    assert_eq!(
        Some(Frame { stamp: 0, pump_on: true }),
        Frame::parse(&[0, 0, 0, 0, 0, 0, 0, 0, 0, 0, 2, 0])
    );
}

#[test]
fn test_frame_length() {
    assert_eq!(12, FRAME_LEN);
    assert_eq!(None, Frame::parse(&[]));
    assert_eq!(None, Frame::parse(&[0; 11]));
    assert_eq!(None, Frame::parse(&[0; 13]));
    assert_eq!(None, Frame::parse(&[0; 8]));
    assert_eq!(Some(Frame { stamp: 0, pump_on: false }), Frame::parse(&[0; 12]));
}
