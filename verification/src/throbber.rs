use vstd::prelude::*;
use std::time::{Duration, Instant};

verus! {

#[verifier::external_type_specification]
#[verifier::external_body]
pub struct ExInstant(std::time::Instant);

/// Calls `Instant::now`: a reading of the monotonic clock. Nothing is
/// stated of it, as it depends on the time of the call.
#[verifier::external_body]
fn instant_now() -> (t: Instant) {
    Instant::now()
}

/// Calls `Instant::elapsed`: the time since `start`, or zero when the clock
/// reads earlier than `start`. Nothing is stated of it, as it depends on the
/// time of the call.
#[verifier::external_body]
fn instant_elapsed(start: &Instant) -> (d: Duration) {
    start.elapsed()
}

/// Calls `Duration::as_millis`: the whole milliseconds in `d`. A duration is
/// opaque here, so nothing is stated of the result.
#[verifier::external_body]
fn duration_as_millis(d: &Duration) -> (ms: u128) {
    d.as_millis()
}

/// The moment the busy indicator started spinning.
#[derive(Clone, Copy)]
pub struct ThrobberStatea {
    pub start_time: Instant,
}

impl ThrobberStatea {
    /// An indicator that starts spinning now.
    pub fn new() -> (s: Self) {
        ThrobberStatea { start_time: instant_now() }
    }

    /// The whole milliseconds since the indicator started (zero when the clock
    /// reads earlier), cut to 64 bits by `truncate_millis`. The count comes
    /// from the clock, so nothing is stated of it; `throbber_frame` turns it
    /// into a picture.
    pub fn elapsed_ms(&self) -> (ms: u64) {
        let d = instant_elapsed(&self.start_time);
        let ms = duration_as_millis(&d);
        truncate_millis(ms)
    }
}

/// A count of milliseconds cut to its low 64 bits.
pub fn truncate_millis(ms: u128) -> (r: u64)
    ensures
        r as int == ms as int % 0x1_0000_0000_0000_0000,
{
    let r: u64 = #[verifier::truncate] (ms as u64);
    assert(r as int == ms as int % 0x1_0000_0000_0000_0000) by (bit_vector)
        requires
            r == ms as u64,
    ;
    r
}

/// The pictures of the spinning indicator, in turn.
pub open spec fn throbber_frames() -> Seq<&'static str> {
    seq!["-", "\\", "|", "|", "/"]
}

/// The picture shown `elapsed_ms` milliseconds after the start: a new one
/// every 100 ms, going round the five.
pub open spec fn frame_at(elapsed_ms: u64) -> &'static str {
    throbber_frames()[((elapsed_ms / 100) % 5) as int]
}

/// The picture shown `elapsed_ms` milliseconds after the start.
pub fn throbber_frame(elapsed_ms: u64) -> (f: &'static str)
    ensures
        f == frame_at(elapsed_ms),
{
    let i = (elapsed_ms / 100) % 5;
    if i == 0 {
        "-"
    } else if i == 1 {
        "\\"
    } else if i == 2 {
        "|"
    } else if i == 3 {
        "|"
    } else {
        "/"
    }
}

/// The busy line shown `elapsed_ms` milliseconds after the start.
pub fn throbber_text(elapsed_ms: u64) -> (t: String)
    ensures
        t@ == "Processing... "@ + frame_at(elapsed_ms)@,
{
    let t = String::from_str("Processing... ");
    t.concat(throbber_frame(elapsed_ms))
}

} // verus!
