use vstd::prelude::*;

verus! {

/// What the performance graph reads of one presented frame: how many frames
/// were dropped late since the previous sample, and the audio state.
#[derive(Clone, Copy, Debug)]
pub struct NativeOverlayPerfSample {
    pub late_drop_delta: u32,
    pub audio_active: bool,
    pub audio_underrun_active: bool,
}

/// A sample is marked red when frames were dropped late since the previous
/// one, whatever the gap between frames was.
pub fn native_perf_sample_has_late_drop(sample: &NativeOverlayPerfSample) -> (b: bool)
    ensures
        b == (sample.late_drop_delta > 0),
{
    sample.late_drop_delta > 0
}

/// The underrun band is drawn only while audio is playing and under-running.
pub fn native_perf_sample_has_audio_underrun_band(sample: &NativeOverlayPerfSample) -> (b: bool)
    ensures
        b == (sample.audio_active && sample.audio_underrun_active),
{
    sample.audio_active && sample.audio_underrun_active
}

/// A sample may be left out of the graph when it drops no frame, lands
/// within a fraction of a point of the last drawn one, and is not the newest.
pub open spec fn thin_sample(
    sample: NativeOverlayPerfSample,
    near_last_drawn: bool,
    idx: usize,
    history_len: usize,
) -> bool {
    sample.late_drop_delta == 0 && near_last_drawn && idx + 1 < history_len
}

/// Whether the sample at `idx` of `history_len` may be left out of the
/// graph; `near_last_drawn` is whether it lands within 0.75 points of the
/// last drawn sample, as the caller measures it.
pub fn native_perf_should_thin_sample(
    sample: &NativeOverlayPerfSample,
    near_last_drawn: bool,
    idx: usize,
    history_len: usize,
) -> (b: bool)
    ensures
        b == thin_sample(*sample, near_last_drawn, idx, history_len),
{
    !native_perf_sample_has_late_drop(sample) && near_last_drawn && idx < history_len
        && history_len - idx > 1
}

/// Thinning never hides a dropped frame, nor the newest sample.
pub proof fn lemma_thinning_keeps_drops_and_newest(
    sample: NativeOverlayPerfSample,
    near_last_drawn: bool,
    idx: usize,
    history_len: usize,
)
    requires
        sample.late_drop_delta > 0 || idx + 1 == history_len,
    ensures
        !thin_sample(sample, near_last_drawn, idx, history_len),
{
}

} // verus!
