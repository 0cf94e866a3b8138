use planet_scene::camera::{capture_after, plan_frame, CameraMode, CameraUpdate, PointerQueue};

fn motions(update: CameraUpdate<(f32, f32)>) -> Option<Vec<(f32, f32)>> {
    match update {
        CameraUpdate::Look(taken) => Some(taken),
        _ => None,
    }
}

#[test]
fn mode_follows_the_capture_flag() {
    assert_eq!(CameraMode::from_capture(false), CameraMode::AutoOrbit);
    assert_eq!(CameraMode::from_capture(true), CameraMode::FreeLook);
}

#[test]
fn capture_flag_table() {
    assert_eq!(capture_after(false, false, false), false);
    assert_eq!(capture_after(true, false, false), true);
    assert_eq!(capture_after(false, true, false), true);
    assert_eq!(capture_after(true, true, false), true);
    assert_eq!(capture_after(false, false, true), false);
    assert_eq!(capture_after(true, false, true), false);
    assert_eq!(capture_after(false, true, true), false);
    assert_eq!(capture_after(true, true, true), false);
}

#[test]
fn queue_keeps_arrival_order() {
    let mut queue: PointerQueue<u8> = PointerQueue::new();
    assert!(queue.is_empty());
    assert_eq!(queue.len(), 0);
    queue.push(7);
    queue.push(3);
    queue.push(9);
    assert!(!queue.is_empty());
    assert_eq!(queue.len(), 3);
    assert_eq!(queue.drain(), vec![7, 3, 9]);
    assert!(queue.is_empty());
    assert_eq!(queue.drain(), Vec::<u8>::new());
}

#[test]
fn queue_discard_counts_and_empties() {
    let mut queue: PointerQueue<u8> = PointerQueue::new();
    assert_eq!(queue.discard(), 0);
    queue.push(1);
    queue.push(2);
    assert_eq!(queue.discard(), 2);
    assert_eq!(queue.len(), 0);
    queue.push(5);
    assert_eq!(queue.drain(), vec![5]);
}

#[test]
fn frame_without_settings_is_skipped() {
    let mut queue: PointerQueue<(f32, f32)> = PointerQueue::new();
    queue.push((1.0, 2.0));
    for captured in [false, true] {
        let update = plan_frame(false, captured, &mut queue);
        assert!(matches!(update, CameraUpdate::Skip));
        assert_eq!(queue.len(), 1);
    }
    assert_eq!(queue.drain(), vec![(1.0, 2.0)]);
}

#[test]
fn orbit_frame_drops_pending_motions() {
    let mut queue: PointerQueue<(f32, f32)> = PointerQueue::new();
    queue.push((4.0, -1.0));
    queue.push((0.5, 0.25));
    let update = plan_frame(true, false, &mut queue);
    assert!(matches!(update, CameraUpdate::Orbit));
    assert!(queue.is_empty());
}

#[test]
fn look_frame_hands_out_every_motion_in_order() {
    let mut queue: PointerQueue<(f32, f32)> = PointerQueue::new();
    queue.push((4.0, -1.0));
    queue.push((0.5, 0.25));
    queue.push((-2.0, 0.0));
    let taken = motions(plan_frame(true, true, &mut queue));
    assert_eq!(taken, Some(vec![(4.0, -1.0), (0.5, 0.25), (-2.0, 0.0)]));
    assert!(queue.is_empty());
    let again = motions(plan_frame(true, true, &mut queue));
    assert_eq!(again, Some(Vec::new()));
}

#[test]
fn horizontal_motion_reaches_the_look_frame_unchanged() {
    let mut queue: PointerQueue<(f32, f32)> = PointerQueue::new();
    queue.push((10.0, 0.0));
    let taken = motions(plan_frame(true, true, &mut queue)).unwrap();
    let total = taken.iter().fold((0.0f32, 0.0f32), |sum, d| (sum.0 + d.0, sum.1 + d.1));
    assert_eq!(total, (10.0, 0.0));
}

#[test]
fn stale_motions_are_not_applied_after_the_switch() {
    let mut queue: PointerQueue<(f32, f32)> = PointerQueue::new();
    let mut captured = false;
    queue.push((30.0, 12.0));
    queue.push((-5.0, 8.0));
    assert!(matches!(plan_frame(true, captured, &mut queue), CameraUpdate::Orbit));
    captured = capture_after(captured, true, false);
    assert!(captured);
    queue.push((1.0, 2.0));
    let taken = motions(plan_frame(true, captured, &mut queue));
    assert_eq!(taken, Some(vec![(1.0, 2.0)]));
    let later = motions(plan_frame(true, captured, &mut queue));
    assert_eq!(later, Some(Vec::new()));
}

#[test]
fn release_returns_to_the_orbit() {
    let mut queue: PointerQueue<(f32, f32)> = PointerQueue::new();
    let mut captured = capture_after(false, true, false);
    queue.push((3.0, 3.0));
    assert!(motions(plan_frame(true, captured, &mut queue)).is_some());
    captured = capture_after(captured, false, true);
    queue.push((9.0, 9.0));
    assert!(matches!(plan_frame(true, captured, &mut queue), CameraUpdate::Orbit));
    assert!(queue.is_empty());
}
