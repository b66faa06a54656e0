use native_overlay::perf::{
    native_perf_sample_has_audio_underrun_band, native_perf_sample_has_late_drop,
    native_perf_should_thin_sample, NativeOverlayPerfSample,
};

// The frame interval is not part of what decides the drop marker, so the
// sample keeps only the fields that do.
fn perf_sample(late_drop_delta: u32, interval_ms: f32) -> NativeOverlayPerfSample {
    let _ = interval_ms;
    NativeOverlayPerfSample { late_drop_delta, audio_active: true, audio_underrun_active: false }
}

fn near(last_draw_x: f32, x: f32) -> bool {
    (last_draw_x - x).abs() < 0.75
}

#[test]
fn perf_red_marker_follows_drop_delta_not_interval_gap() {
    assert!(!native_perf_sample_has_late_drop(&perf_sample(0, 73.3)));
    assert!(native_perf_sample_has_late_drop(&perf_sample(1, 16.7)));
}

#[test]
fn perf_thinning_preserves_drop_marker() {
    let normal = perf_sample(0, 16.7);
    let dropped = perf_sample(1, 16.7);
    assert!(native_perf_should_thin_sample(&normal, near(100.0, 99.5), 3, 10));
    assert!(!native_perf_should_thin_sample(&dropped, near(100.0, 99.5), 3, 10));
}

#[test]
fn perf_underrun_band_requires_active_audio() {
    let mut audio_active = perf_sample(0, 16.7);
    audio_active.audio_underrun_active = true;
    audio_active.audio_active = true;
    let mut audio_inactive = audio_active;
    audio_inactive.audio_active = false;

    assert!(native_perf_sample_has_audio_underrun_band(&audio_active));
    assert!(!native_perf_sample_has_audio_underrun_band(&audio_inactive));
}

#[test]
fn perf_newest_and_far_samples_are_kept() {
    let normal = perf_sample(0, 16.7);
    assert!(!native_perf_should_thin_sample(&normal, near(100.0, 99.5), 9, 10));
    assert!(!native_perf_should_thin_sample(&normal, near(100.0, 98.0), 3, 10));
    assert!(!native_perf_should_thin_sample(&normal, true, 10, 10));
}

#[test]
fn perf_underrun_without_underrun_has_no_band() {
    let quiet = perf_sample(0, 16.7);
    assert!(!native_perf_sample_has_audio_underrun_band(&quiet));
}
