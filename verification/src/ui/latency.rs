//! Latency telemetry for the audio pipeline: when the stream proxy saw its
//! first byte, when the decoder produced its first sample, and when the meter
//! first showed audio.

use vstd::prelude::*;
use crate::text::{append_chars, chars_of, decimal, decimal_chars, string_of};
use crate::ui::intent::now;

verus! {

/// Whole microseconds elapsed since `since` (`Instant::elapsed`, then
/// `Duration::as_micros`); the clock decides, so nothing is claimed.
#[verifier::external_body]
fn elapsed_us(since: &std::time::Instant) -> u128 {
    since.elapsed().as_micros()
}

/// The clock reading that a record stores: microseconds elapsed since the
/// telemetry's `origin`, plus one so that a reading is never the zero that
/// means "not recorded" (saturating at the top of `u64`).
fn clock_reading(origin: &std::time::Instant) -> (r: u64)
    ensures
        r >= 1,
{
    let us = elapsed_us(origin);
    if us >= 0xffff_ffff_ffff_ffff {
        0xffff_ffff_ffff_ffff
    } else {
        us as u64 + 1
    }
}

/// Telemetry collector for pipeline latency measurements. A zero reading
/// means "not recorded yet".
#[derive(Debug, Clone)]
pub struct PipelineTelemetry {
    /// When the proxy received its first byte from upstream.
    pub proxy_first_byte: u64,
    /// When the decoder produced its first PCM sample.
    pub ffmpeg_first_sample: u64,
    /// When the VU meter first displayed audio.
    pub vu_first_display: u64,
    /// Samples counted on the PCM path (wrapping at 2^64).
    pub samples_processed: u64,
    /// The instant the readings are measured from (when the collector was
    /// made).
    pub origin: std::time::Instant,
}

/// Latency measurements in microseconds.
#[derive(Debug, Clone, Copy)]
pub struct LatencyReport {
    /// From the proxy receiving data to the decoder decoding it.
    pub proxy_to_ffmpeg_us: Option<u64>,
    /// From the proxy receiving data to the meter displaying it.
    pub proxy_to_vu_us: Option<u64>,
    /// From decoding to display.
    pub ffmpeg_to_vu_us: Option<u64>,
    /// Total samples processed through the PCM path.
    pub total_samples: u64,
}

/// The span between two readings when both were recorded.
pub open spec fn span(from: u64, to: u64) -> Option<u64> {
    if from > 0 && to > 0 {
        Some((to - from) as u64)
    } else {
        None
    }
}

/// Both readings recorded implies the later one is not earlier.
pub open spec fn ordered(from: u64, to: u64) -> bool {
    from > 0 && to > 0 ==> from <= to
}

fn span_of(from: u64, to: u64) -> (r: Option<u64>)
    requires
        ordered(from, to),
    ensures
        r == span(from, to),
{
    if from > 0 && to > 0 {
        Some(to - from)
    } else {
        None
    }
}

impl PipelineTelemetry {
    pub fn new() -> (t: Self)
        ensures
            t.proxy_first_byte == 0,
            t.ffmpeg_first_sample == 0,
            t.vu_first_display == 0,
            t.samples_processed == 0,
    {
        PipelineTelemetry {
            proxy_first_byte: 0,
            ffmpeg_first_sample: 0,
            vu_first_display: 0,
            samples_processed: 0,
            origin: now(),
        }
    }

    /// Resets all counters (when new playback starts).
    pub fn reset(&mut self)
        ensures
            final(self).proxy_first_byte == 0,
            final(self).ffmpeg_first_sample == 0,
            final(self).vu_first_display == 0,
            final(self).samples_processed == 0,
            final(self).origin == old(self).origin,
    {
        self.proxy_first_byte = 0;
        self.ffmpeg_first_sample = 0;
        self.vu_first_display = 0;
        self.samples_processed = 0;
    }

    /// Records that the proxy received its first byte: the clock reading, microseconds since
    /// `origin` plus one, so that the stage counts as recorded.
    pub fn record_proxy_first_byte(&mut self)
        ensures
            final(self).proxy_first_byte >= 1,
            *final(self) == (PipelineTelemetry { proxy_first_byte: final(self).proxy_first_byte, ..*old(self) }),
    {
        let reading = clock_reading(&self.origin);
        self.record_proxy_first_byte_at(reading);
    }

    /// Stores `reading` as the proxy first byte reading; the rest stays.
    pub fn record_proxy_first_byte_at(&mut self, reading: u64)
        ensures
            *final(self) == (PipelineTelemetry { proxy_first_byte: reading, ..*old(self) }),
    {
        self.proxy_first_byte = reading;
    }

    /// Records that the decoder produced its first sample: the clock reading, microseconds since
    /// `origin` plus one, so that the stage counts as recorded.
    pub fn record_ffmpeg_first_sample(&mut self)
        ensures
            final(self).ffmpeg_first_sample >= 1,
            *final(self) == (PipelineTelemetry { ffmpeg_first_sample: final(self).ffmpeg_first_sample, ..*old(self) }),
    {
        let reading = clock_reading(&self.origin);
        self.record_ffmpeg_first_sample_at(reading);
    }

    /// Stores `reading` as the ffmpeg first sample reading; the rest stays.
    pub fn record_ffmpeg_first_sample_at(&mut self, reading: u64)
        ensures
            *final(self) == (PipelineTelemetry { ffmpeg_first_sample: reading, ..*old(self) }),
    {
        self.ffmpeg_first_sample = reading;
    }

    /// Records that the meter displayed its first audio: the clock reading, microseconds since
    /// `origin` plus one, so that the stage counts as recorded.
    pub fn record_vu_first_display(&mut self)
        ensures
            final(self).vu_first_display >= 1,
            *final(self) == (PipelineTelemetry { vu_first_display: final(self).vu_first_display, ..*old(self) }),
    {
        let reading = clock_reading(&self.origin);
        self.record_vu_first_display_at(reading);
    }

    /// Stores `reading` as the vu first display reading; the rest stays.
    pub fn record_vu_first_display_at(&mut self, reading: u64)
        ensures
            *final(self) == (PipelineTelemetry { vu_first_display: reading, ..*old(self) }),
    {
        self.vu_first_display = reading;
    }

    /// Adds to the sample counter, wrapping at 2^64.
    pub fn increment_samples(&mut self, count: u64)
        ensures
            final(self).samples_processed == (old(self).samples_processed + count) % 0x1_0000_0000_0000_0000,
            final(self).proxy_first_byte == old(self).proxy_first_byte,
            final(self).ffmpeg_first_sample == old(self).ffmpeg_first_sample,
            final(self).vu_first_display == old(self).vu_first_display,
    {
        self.samples_processed = self.samples_processed.wrapping_add(count);
    }

    /// The current report: each span is present when both of its readings
    /// were recorded. (A later stage read before an earlier one would make a
    /// span negative, which the subtraction does not allow.)
    pub fn report(&self) -> (r: LatencyReport)
        requires
            ordered(self.proxy_first_byte, self.ffmpeg_first_sample),
            ordered(self.proxy_first_byte, self.vu_first_display),
            ordered(self.ffmpeg_first_sample, self.vu_first_display),
        ensures
            r.proxy_to_ffmpeg_us == span(self.proxy_first_byte, self.ffmpeg_first_sample),
            r.proxy_to_vu_us == span(self.proxy_first_byte, self.vu_first_display),
            r.ffmpeg_to_vu_us == span(self.ffmpeg_first_sample, self.vu_first_display),
            r.total_samples == self.samples_processed,
    {
        LatencyReport {
            proxy_to_ffmpeg_us: span_of(self.proxy_first_byte, self.ffmpeg_first_sample),
            proxy_to_vu_us: span_of(self.proxy_first_byte, self.vu_first_display),
            ffmpeg_to_vu_us: span_of(self.ffmpeg_first_sample, self.vu_first_display),
            total_samples: self.samples_processed,
        }
    }
}

impl Default for PipelineTelemetry {
    fn default() -> (t: Self)
        ensures
            t.proxy_first_byte == 0,
            t.ffmpeg_first_sample == 0,
            t.vu_first_display == 0,
            t.samples_processed == 0,
    {
        Self::new()
    }
}

/// How an optional span prints: `Some("<n>us")` or `None`.
pub open spec fn opt_us_text(o: Option<u64>) -> Seq<char> {
    match o {
        Some(us) => "Some(\""@ + decimal(us as nat) + "us\")"@,
        None => "None"@,
    }
}

/// The human-readable form of a report.
pub open spec fn report_text(r: LatencyReport) -> Seq<char> {
    "Latency: proxy\u{2192}ffmpeg="@ + opt_us_text(r.proxy_to_ffmpeg_us) + ", proxy\u{2192}VU="@
        + opt_us_text(r.proxy_to_vu_us) + ", ffmpeg\u{2192}VU="@ + opt_us_text(r.ffmpeg_to_vu_us)
        + ", samples="@ + decimal(r.total_samples as nat)
}

fn push_str(out: &mut Vec<char>, s: &str)
    ensures
        final(out)@ == old(out)@ + s@,
{
    let v = chars_of(s);
    append_chars(out, v.as_slice());
}

fn push_opt_us(out: &mut Vec<char>, o: Option<u64>)
    ensures
        final(out)@ == old(out)@ + opt_us_text(o),
{
    match o {
        Some(us) => {
            let ghost start = out@;
            push_str(out, "Some(\"");
            let d = decimal_chars(us);
            append_chars(out, d.as_slice());
            push_str(out, "us\")");
            proof {
                assert(out@ =~= start + opt_us_text(o));
            }
        },
        None => {
            push_str(out, "None");
        },
    }
}

impl LatencyReport {
    /// Formats the report for human reading.
    pub fn format(&self) -> (s: String)
        ensures
            s@ == report_text(*self),
    {
        let mut out: Vec<char> = Vec::new();
        push_str(&mut out, "Latency: proxy\u{2192}ffmpeg=");
        push_opt_us(&mut out, self.proxy_to_ffmpeg_us);
        push_str(&mut out, ", proxy\u{2192}VU=");
        push_opt_us(&mut out, self.proxy_to_vu_us);
        push_str(&mut out, ", ffmpeg\u{2192}VU=");
        push_opt_us(&mut out, self.ffmpeg_to_vu_us);
        push_str(&mut out, ", samples=");
        let d = decimal_chars(self.total_samples);
        append_chars(&mut out, d.as_slice());
        proof {
            assert(out@ =~= report_text(*self));
        }
        string_of(out.as_slice())
    }
}

/// Lag statistics of a broadcast receiver.
#[derive(Debug, Clone, Copy)]
pub struct LagStats {
    pub last_lag_chunks: u64,
    pub total_lag_events: u64,
}

/// Monitors a broadcast channel for lag.
pub struct BroadcastLagMonitor {
    pub telemetry: PipelineTelemetry,
    pub last_lag: u64,
    pub lag_count: u64,
}

impl BroadcastLagMonitor {
    pub fn new(telemetry: PipelineTelemetry) -> (m: Self)
        ensures
            m.telemetry == telemetry,
            m.last_lag == 0,
            m.lag_count == 0,
    {
        BroadcastLagMonitor { telemetry, last_lag: 0, lag_count: 0 }
    }

    /// Records a lag report from a broadcast receiver: the number of chunks
    /// skipped, and one more lag event (the count wraps at 2^64).
    pub fn record_lag(&mut self, skipped: u64)
        ensures
            final(self).last_lag == skipped,
            final(self).lag_count == (old(self).lag_count + 1) % 0x1_0000_0000_0000_0000,
            final(self).telemetry == old(self).telemetry,
    {
        self.last_lag = skipped;
        self.lag_count = self.lag_count.wrapping_add(1);
    }

    /// The lag statistics.
    pub fn lag_stats(&self) -> (s: LagStats)
        ensures
            s.last_lag_chunks == self.last_lag,
            s.total_lag_events == self.lag_count,
    {
        LagStats { last_lag_chunks: self.last_lag, total_lag_events: self.lag_count }
    }
}

/// A synthetic test signal for latency measurements: its sample rate, its
/// tone frequency in hertz and its amplitude in percent of full scale (the
/// tone itself is floating-point work left to the front end).
pub struct TestSignal {
    pub sample_rate: u32,
    pub frequency_hz: u32,
    pub amplitude_percent: u32,
}

/// Samples in one second of the impulse signal.
pub const IMPULSE_LEN: usize = 44100;

/// The largest `i16`, the impulse's peak.
pub const FULL_SCALE: i16 = 32767;

impl TestSignal {
    /// A 1 kHz tone at half amplitude, sampled at 44.1 kHz.
    pub fn sine_1khz() -> (t: Self)
        ensures
            t.sample_rate == 44100,
            t.frequency_hz == 1000,
            t.amplitude_percent == 50,
    {
        TestSignal { sample_rate: 44100, frequency_hz: 1000, amplitude_percent: 50 }
    }

    /// One second of silence at 44.1 kHz with a single full-scale peak at
    /// the start, for precise timing.
    pub fn impulse() -> (r: Vec<i16>)
        ensures
            r@.len() == IMPULSE_LEN,
            r@[0] == FULL_SCALE,
            forall|i: int| 1 <= i < IMPULSE_LEN ==> #[trigger] r@[i] == 0,
    {
        let mut samples: Vec<i16> = Vec::new();
        samples.push(FULL_SCALE);
        let mut k: usize = 1;
        while k < IMPULSE_LEN
            invariant
                1 <= k <= IMPULSE_LEN,
                samples@.len() == k,
                samples@[0] == FULL_SCALE,
                forall|i: int| 1 <= i < k ==> #[trigger] samples@[i] == 0,
            decreases IMPULSE_LEN - k,
        {
            samples.push(0);
            k += 1;
        }
        samples
    }
}

} // verus!
