use ddm_core::worker::{center_shift, WorkerDirective, WorkerState};

#[test]
fn first_frame_fixes_the_padded_dimension() {
    let mut w = WorkerState::new();
    let d = w.on_acquired(Some((480, 640)));
    // 640 = 2^7 * 5 is already 5-smooth.
    assert_eq!(d, WorkerDirective::Transform { dim: 640, announce_bins: true });
}

#[test]
fn later_frames_reuse_the_dimension() {
    let mut w = WorkerState::new();
    w.on_acquired(Some((480, 700)));
    // 700 = 2^2 * 5^2 * 7 is not 5-smooth; 720 = 2^4 * 3^2 * 5 is next.
    let d = w.on_acquired(Some((100, 100)));
    assert_eq!(d, WorkerDirective::Transform { dim: 720, announce_bins: false });
    let d = w.on_acquired(Some((2000, 2000)));
    assert_eq!(d, WorkerDirective::Transform { dim: 720, announce_bins: false });
}

#[test]
fn exhausted_source_sends_the_end_marker() {
    let mut w = WorkerState::new();
    assert_eq!(w.on_acquired(None), WorkerDirective::SendEnd);
    w.on_acquired(Some((4, 4)));
    assert_eq!(w.on_acquired(None), WorkerDirective::SendEnd);
}

#[test]
fn taller_than_wide_frames_use_the_row_count() {
    let mut w = WorkerState::new();
    let d = w.on_acquired(Some((1081, 640)));
    // 1125 = 3^2 * 5^3 is the smallest 5-smooth size at least 1081.
    assert_eq!(d, WorkerDirective::Transform { dim: 1125, announce_bins: true });
}

#[test]
fn centering_shift_is_symmetric() {
    assert_eq!(center_shift(10, 10), (5, 5));
    assert_eq!(center_shift(11, 7), (5, 3));
    assert_eq!(center_shift(1, 1), (0, 0));
}
