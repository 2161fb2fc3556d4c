use r4dio::ui::latency::{BroadcastLagMonitor, LatencyReport, PipelineTelemetry, TestSignal};

#[test]
fn test_latency_report_formatting() {
    let report = LatencyReport {
        proxy_to_ffmpeg_us: Some(5000),
        proxy_to_vu_us: Some(15000),
        ffmpeg_to_vu_us: Some(10000),
        total_samples: 44100,
    };

    let formatted = report.format();
    assert!(formatted.contains("5000us"));
    assert!(formatted.contains("15000us"));
    assert!(formatted.contains("44100"));
}

#[test]
fn test_telemetry_reset() {
    let mut telemetry = PipelineTelemetry::new();
    telemetry.record_proxy_first_byte();
    telemetry.increment_samples(100);

    telemetry.reset();

    let report = telemetry.report();
    assert_eq!(report.total_samples, 0);
}

#[test]
fn report_format_exact_text() {
    let report = LatencyReport {
        proxy_to_ffmpeg_us: Some(7),
        proxy_to_vu_us: None,
        ffmpeg_to_vu_us: Some(0),
        total_samples: 3,
    };
    assert_eq!(
        report.format(),
        "Latency: proxy\u{2192}ffmpeg=Some(\"7us\"), proxy\u{2192}VU=None, ffmpeg\u{2192}VU=Some(\"0us\"), samples=3"
    );
}

#[test]
fn report_spans_need_both_readings() {
    let mut t = PipelineTelemetry::new();
    t.proxy_first_byte = 100;
    t.ffmpeg_first_sample = 250;
    let r = t.report();
    assert_eq!(r.proxy_to_ffmpeg_us, Some(150));
    assert_eq!(r.proxy_to_vu_us, None);
    assert_eq!(r.ffmpeg_to_vu_us, None);
    t.vu_first_display = 400;
    let r = t.report();
    assert_eq!(r.proxy_to_vu_us, Some(300));
    assert_eq!(r.ffmpeg_to_vu_us, Some(150));
}

#[test]
fn sample_counter_wraps() {
    let mut t = PipelineTelemetry::default();
    t.increment_samples(u64::MAX);
    t.increment_samples(2);
    assert_eq!(t.report().total_samples, 1);
}

#[test]
fn lag_monitor_counts_events() {
    let mut m = BroadcastLagMonitor::new(PipelineTelemetry::new());
    m.record_lag(5);
    m.record_lag(9);
    let s = m.lag_stats();
    assert_eq!(s.last_lag_chunks, 9);
    assert_eq!(s.total_lag_events, 2);
}

#[test]
fn readings_land_in_their_own_fields() {
    let mut t = PipelineTelemetry::new();
    t.record_proxy_first_byte_at(10);
    t.record_ffmpeg_first_sample_at(25);
    t.record_vu_first_display_at(40);
    assert_eq!(t.proxy_first_byte, 10);
    assert_eq!(t.ffmpeg_first_sample, 25);
    assert_eq!(t.vu_first_display, 40);
    let r = t.report();
    assert_eq!(r.proxy_to_ffmpeg_us, Some(15));
    assert_eq!(r.proxy_to_vu_us, Some(30));
    assert_eq!(r.ffmpeg_to_vu_us, Some(15));
}

#[test]
fn clock_readings_are_recorded() {
    let mut t = PipelineTelemetry::new();
    t.record_proxy_first_byte();
    t.record_ffmpeg_first_sample();
    t.record_vu_first_display();
    assert!(t.proxy_first_byte >= 1);
    assert!(t.ffmpeg_first_sample >= t.proxy_first_byte);
    assert!(t.vu_first_display >= t.ffmpeg_first_sample);
    let r = t.report();
    assert!(r.proxy_to_ffmpeg_us.is_some());
    assert!(r.proxy_to_vu_us.is_some());
    assert!(r.ffmpeg_to_vu_us.is_some());
}

#[test]
fn test_impulse_signal() {
    let impulse = TestSignal::impulse();
    assert_eq!(impulse[0], 32767);
    assert_eq!(impulse[1], 0);
    assert_eq!(impulse.len(), 44100);
}

#[test]
fn sine_test_tone_parameters() {
    let s = TestSignal::sine_1khz();
    assert_eq!((s.sample_rate, s.frequency_hz, s.amplitude_percent), (44100, 1000, 50));
}
