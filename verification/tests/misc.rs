use peach::render::RendererInitError;
use peach::sketch::Settings;
use peach::state::{duration_since, Delta};
use peach::types::{Size, UNIT};

#[test]
fn delta_starts_at_zero() {
    let d = Delta::new(1_000);
    assert_eq!(d.start_instant, 1_000);
    assert_eq!(d.last_update_instant, 1_000);
    assert_eq!(d.last_frame_instant, 1_000);
    assert_eq!(d.time_since_start, 0);
    assert_eq!(d.time_since_last_update, 0);
    assert_eq!(d.time_since_last_frame, 0);
}

#[test]
fn delta_update_measures_from_each_instant() {
    let mut d = Delta::new(1_000);
    d.last_update_instant = 1_500;
    d.last_frame_instant = 1_900;
    d.update(2_000);
    assert_eq!(d.time_since_start, 1_000);
    assert_eq!(d.time_since_last_update, 500);
    assert_eq!(d.time_since_last_frame, 100);
    assert_eq!(d.start_instant, 1_000);
    assert_eq!(d.last_update_instant, 1_500);
    assert_eq!(d.last_frame_instant, 1_900);
}

#[test]
fn delta_update_before_an_instant_gives_zero() {
    let mut d = Delta::new(1_000);
    d.last_frame_instant = 5_000;
    d.update(3_000);
    assert_eq!(d.time_since_start, 2_000);
    assert_eq!(d.time_since_last_frame, 0);
}

#[test]
fn duration_since_saturates() {
    assert_eq!(duration_since(10, 4), 6);
    assert_eq!(duration_since(4, 10), 0);
    assert_eq!(duration_since(u64::MAX, 0), u64::MAX);
}

#[test]
fn settings_default() {
    let s = Settings::default();
    assert_eq!(s.title, None);
    assert_eq!(s.size, Size::new(800 * UNIT, 600 * UNIT));
    assert!(s.decorations);
    assert_eq!(s.framerate, None);
    assert_eq!(s.exit_key, None);
}

#[test]
fn unit_is_256() {
    assert_eq!(UNIT, 256);
}

#[test]
fn renderer_init_error_messages() {
    assert_eq!(RendererInitError::RequestAdapter.message(), "Failed to request GPU Adapter");
    assert_eq!(RendererInitError::RequestDevice.message(), "Failed to request GPU Device");
}
