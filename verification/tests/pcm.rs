use r4dio::ui::pcm::{
    frame_take, meter_tick, pcm_started_after, push_chunk, PCM_JITTER_KEEP, PCM_JITTER_MAX, PCM_JITTER_STOP,
    PCM_JITTER_TARGET, PCM_RING_MAX, STREAM_FRAME_SAMPLES,
};
use std::collections::VecDeque;

#[test]
fn jitter_constants() {
    assert_eq!(STREAM_FRAME_SAMPLES, 1764);
    assert_eq!(PCM_JITTER_TARGET, 70560);
    assert_eq!(PCM_JITTER_STOP, 7056);
    assert_eq!(PCM_JITTER_MAX, 220500);
    assert_eq!(PCM_RING_MAX, 88200);
}

#[test]
fn start_and_stop_hysteresis() {
    assert!(!pcm_started_after(false, PCM_JITTER_TARGET - 1));
    assert!(pcm_started_after(false, PCM_JITTER_TARGET));
    assert!(pcm_started_after(true, PCM_JITTER_STOP));
    assert!(!pcm_started_after(true, PCM_JITTER_STOP - 1));
    assert!(!pcm_started_after(true, 10));
    assert!(!pcm_started_after(false, 10));
}

#[test]
fn catch_up_take() {
    assert_eq!(frame_take(0), STREAM_FRAME_SAMPLES);
    assert_eq!(frame_take(PCM_JITTER_TARGET + STREAM_FRAME_SAMPLES), STREAM_FRAME_SAMPLES);
    assert_eq!(frame_take(PCM_JITTER_TARGET + 2000), STREAM_FRAME_SAMPLES + 1000);
    assert_eq!(frame_take(PCM_JITTER_MAX), STREAM_FRAME_SAMPLES * 5);
}

#[test]
fn chunks_overflow_to_the_newest() {
    let mut p: VecDeque<f32> = VecDeque::new();
    push_chunk(&mut p, &vec![0.5; 1000]);
    assert_eq!(p.len(), 1000);
    let big: Vec<f32> = (0..PCM_JITTER_MAX).map(|i| i as f32).collect();
    push_chunk(&mut p, &big);
    assert_eq!(p.len(), PCM_JITTER_KEEP);
    assert_eq!(*p.back().unwrap(), (PCM_JITTER_MAX - 1) as f32);
}

#[test]
fn meter_tick_moves_a_frame() {
    let mut p: VecDeque<f32> = VecDeque::new();
    let mut ring: VecDeque<f32> = VecDeque::new();
    // not started yet: nothing moves
    push_chunk(&mut p, &vec![1.0; 100]);
    assert_eq!(meter_tick(&mut p, &mut ring, false, 0.0), (false, 0, 0));
    assert_eq!(p.len(), 100);
    // playing, but under the stop level: it stops and nothing moves
    assert_eq!(meter_tick(&mut p, &mut ring, true, 0.0), (false, 0, 0));
    p.clear();
    // a full buffer starts playing and takes one frame
    let samples: Vec<f32> = (0..PCM_JITTER_TARGET).map(|i| (i % 7) as f32).collect();
    push_chunk(&mut p, &samples);
    let (on, taken, pushed) = meter_tick(&mut p, &mut ring, false, 0.0);
    assert!(on);
    assert_eq!((taken, pushed), (STREAM_FRAME_SAMPLES, STREAM_FRAME_SAMPLES));
    assert_eq!(p.len(), PCM_JITTER_TARGET - STREAM_FRAME_SAMPLES);
    assert_eq!(ring.len(), STREAM_FRAME_SAMPLES);
    assert_eq!(*ring.back().unwrap(), ((STREAM_FRAME_SAMPLES - 1) % 7) as f32);
    // the ring keeps at most its maximum
    for _ in 0..60 {
        push_chunk(&mut p, &vec![2.0; STREAM_FRAME_SAMPLES]);
        meter_tick(&mut p, &mut ring, true, 0.0);
    }
    assert_eq!(ring.len(), PCM_RING_MAX);
}
