use stereo_fx_core::channel::VisChannel;
use stereo_fx_core::frame::FRAME_CAPACITY;
use stereo_fx_core::frame::VisFrame;
use stereo_fx_core::frame::VisPoint;

fn frame_of(points: &[(u32, u32)]) -> VisFrame {
    let mut f = VisFrame::new();
    for &(x, y) in points {
        f.push(x, y);
    }
    f
}

#[test]
fn frame_keeps_points_in_order() {
    let f = frame_of(&[(1, 2), (3, 4), (5, 6)]);
    assert_eq!(f.len(), 3);
    assert_eq!(f.point(0), VisPoint { x_bits: 1, y_bits: 2 });
    assert_eq!(f.point(1), VisPoint { x_bits: 3, y_bits: 4 });
    assert_eq!(f.point(2), VisPoint { x_bits: 5, y_bits: 6 });
}

#[test]
fn frame_fills_to_capacity() {
    let mut f = VisFrame::new();
    assert_eq!(f.len(), 0);
    let mut i: u32 = 0;
    while (i as usize) < FRAME_CAPACITY {
        f.push(i, i.wrapping_mul(7));
        i += 1;
    }
    assert_eq!(f.len(), FRAME_CAPACITY);
    assert_eq!(f.point(4095), VisPoint { x_bits: 4095, y_bits: 4095u32.wrapping_mul(7) });
}

#[test]
fn channel_starts_empty_with_no_update() {
    let mut c = VisChannel::new();
    assert_eq!(c.current().len(), 0);
    assert!(!c.try_read());
    assert_eq!(c.current().len(), 0);
}

#[test]
fn channel_hands_over_the_published_frame_whole() {
    let mut c = VisChannel::new();
    c.publish(frame_of(&[(10, 20), (30, 40)]));
    assert!(c.try_read());
    let cur = c.current();
    assert_eq!(cur.len(), 2);
    assert_eq!(cur.point(0), VisPoint { x_bits: 10, y_bits: 20 });
    assert_eq!(cur.point(1), VisPoint { x_bits: 30, y_bits: 40 });
}

#[test]
fn channel_poll_without_new_publish_reports_no_update_and_keeps_the_frame() {
    let mut c = VisChannel::new();
    c.publish(frame_of(&[(7, 8)]));
    assert!(c.try_read());
    assert!(!c.try_read());
    assert!(!c.try_read());
    assert_eq!(c.current().point(0), VisPoint { x_bits: 7, y_bits: 8 });
}

#[test]
fn channel_drops_missed_frames_and_reads_only_the_newest() {
    let mut c = VisChannel::new();
    c.publish(frame_of(&[(1, 1)]));
    c.publish(frame_of(&[(2, 2)]));
    c.publish(frame_of(&[(3, 3)]));
    assert!(c.try_read());
    let cur = c.current();
    assert_eq!(cur.len(), 1);
    assert_eq!(cur.point(0), VisPoint { x_bits: 3, y_bits: 3 });
    assert!(!c.try_read());
}

#[test]
fn channel_consumer_never_sees_an_older_frame_after_a_newer_one() {
    // Each published frame carries its ordinal; polling after every publish
    // must observe a non-decreasing sequence of ordinals with exactly the
    // published point count.
    let mut c = VisChannel::new();
    let mut last_seen: u32 = 0;
    let mut n: u32 = 1;
    while n <= 50 {
        let mut f = VisFrame::new();
        let mut k: u32 = 0;
        while k < n % 5 + 1 {
            f.push(n, k);
            k += 1;
        }
        let count = f.len();
        c.publish(f);
        assert!(c.try_read());
        let cur = c.current();
        assert_eq!(cur.len(), count);
        let seen = cur.point(0).x_bits;
        assert!(seen >= last_seen);
        last_seen = seen;
        n += 1;
    }
    assert_eq!(last_seen, 50);
}

#[test]
fn channel_alternating_producer_and_consumer_stays_fresh_only_once_per_publish() {
    let mut c = VisChannel::new();
    let mut n: u32 = 0;
    while n < 9 {
        c.publish(frame_of(&[(n, n + 1)]));
        assert!(c.try_read());
        assert_eq!(c.current().point(0), VisPoint { x_bits: n, y_bits: n + 1 });
        assert!(!c.try_read());
        n += 1;
    }
}
