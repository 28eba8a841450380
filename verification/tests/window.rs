use ddm_core::window::SlidingWindow;

#[test]
fn fills_up_to_capacity() {
    let mut w: SlidingWindow<u32> = SlidingWindow::new(4);
    assert_eq!(w.capacity(), 4);
    assert_eq!(w.len(), 0);
    w.push(10);
    w.push(11);
    w.push(12);
    assert_eq!(w.len(), 3);
    assert_eq!(w.frames().as_slice(), &[10, 11, 12]);
}

#[test]
fn keeps_most_recent_frames_in_order() {
    // capacity + k pushes leave exactly the most recent `capacity` frames.
    let capacity = 4usize;
    for k in 0usize..5 {
        let mut w: SlidingWindow<u32> = SlidingWindow::new(capacity);
        let total = capacity + k;
        for f in 0..total as u32 {
            w.push(f);
        }
        assert_eq!(w.len(), capacity);
        let expect: Vec<u32> = (k as u32..total as u32).collect();
        assert_eq!(w.frames().as_slice(), expect.as_slice());
    }
}

#[test]
fn capacity_one_window_holds_last_frame() {
    let mut w: SlidingWindow<i64> = SlidingWindow::new(1);
    w.push(-3);
    w.push(7);
    assert_eq!(w.frames().as_slice(), &[7]);
}
