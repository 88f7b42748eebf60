use audio_passthrough::delay_buffer::{overrun_after, sample_or_silence, DelayBuffer, SILENCE};

fn frames_for(latency_ms: f32, sample_rate: u32) -> usize {
    (latency_ms / 1000.0 * sample_rate as f32).round() as usize
}

#[test]
fn fifty_milliseconds_at_48k_stereo() {
    let frames = frames_for(50.0, 48000);
    assert_eq!(frames, 2400);
    assert_eq!(DelayBuffer::sizing(frames, 2), Some(4800));
    let buffer = DelayBuffer::new(frames, 2);
    assert_eq!(buffer.capacity(), 9600);
    assert_eq!(buffer.len(), 4800);
    assert_eq!(buffer.remaining(), 4800);
}

#[test]
fn new_buffer_holds_one_latency_of_silence() {
    let mut buffer = DelayBuffer::new(3, 2);
    assert_eq!(buffer.capacity(), 12);
    assert_eq!(buffer.len(), 6);
    let mut out = vec![7u32; 6];
    let underrun = buffer.pop_batch(&mut out);
    assert!(!underrun);
    assert_eq!(out, vec![SILENCE; 6]);
    assert_eq!(buffer.len(), 0);
}

#[test]
fn sizing_refuses_an_empty_latency() {
    assert_eq!(DelayBuffer::sizing(0, 2), None);
    assert_eq!(DelayBuffer::sizing(100, 0), None);
    assert_eq!(DelayBuffer::sizing(1, 1), Some(1));
}

#[test]
fn sizing_refuses_what_cannot_be_allocated() {
    assert_eq!(DelayBuffer::sizing(usize::MAX, 2), None);
    assert_eq!(DelayBuffer::sizing(usize::MAX / 8, 1), None);
    let limit = (isize::MAX as usize) / 8;
    assert_eq!(DelayBuffer::sizing(limit, 1), Some(limit));
    assert_eq!(DelayBuffer::sizing(limit + 1, 1), None);
}

#[test]
fn push_beyond_the_room_left_keeps_the_front_and_reports_overrun() {
    let mut buffer = DelayBuffer::new(2, 1);
    assert_eq!(buffer.remaining(), 2);
    let overrun = buffer.push_batch(&[11, 12, 13]);
    assert!(overrun);
    assert_eq!(buffer.len(), 4);
    assert_eq!(buffer.remaining(), 0);
    let mut out = vec![9u32; 4];
    assert!(!buffer.pop_batch(&mut out));
    assert_eq!(out, vec![0, 0, 11, 12]);
}

#[test]
fn push_within_the_room_left_reports_no_overrun() {
    let mut buffer = DelayBuffer::new(2, 1);
    assert!(!buffer.push_batch(&[5, 6]));
    assert_eq!(buffer.len(), 4);
    assert!(!buffer.push_batch(&[]));
    assert!(buffer.push_batch(&[7]));
    assert_eq!(buffer.len(), 4);
}

#[test]
fn pop_from_an_empty_buffer_gives_silence_and_reports_underrun() {
    let mut buffer = DelayBuffer::new(1, 1);
    let mut first = vec![3u32; 1];
    assert!(!buffer.pop_batch(&mut first));
    assert_eq!(first, vec![0]);
    let mut out = vec![3u32; 1];
    assert!(buffer.pop_batch(&mut out));
    assert_eq!(out, vec![SILENCE]);
    assert_eq!(buffer.len(), 0);
}

#[test]
fn pop_beyond_what_is_queued_pads_with_silence() {
    let mut buffer = DelayBuffer::new(1, 2);
    assert!(!buffer.push_batch(&[21, 22]));
    let mut out = vec![9u32; 6];
    assert!(buffer.pop_batch(&mut out));
    assert_eq!(out, vec![0, 0, 21, 22, 0, 0]);
    let mut none: Vec<u32> = Vec::new();
    assert!(!buffer.pop_batch(&mut none));
}

#[test]
fn samples_come_out_in_the_order_they_went_in() {
    let mut buffer = DelayBuffer::new(2, 2);
    let mut out = vec![0u32; 3];
    for round in 0..10u32 {
        assert!(!buffer.push_batch(&[round * 3 + 1, round * 3 + 2, round * 3 + 3]));
        assert!(!buffer.pop_batch(&mut out));
        if round >= 2 {
            let first = round * 3 - 3;
            assert_eq!(out, vec![first, first + 1, first + 2]);
        }
    }
    assert_eq!(buffer.len(), 4);
}

#[test]
fn silence_is_the_float_zero() {
    assert_eq!(f32::from_bits(SILENCE), 0.0f32);
    assert_eq!(0.0f32.to_bits(), SILENCE);
}

#[test]
fn sample_or_silence_passes_a_sample_through() {
    let bits = 0.25f32.to_bits();
    assert_eq!(sample_or_silence(Some(bits)), (bits, false));
    assert_eq!(sample_or_silence(None), (SILENCE, true));
}

#[test]
fn split_ends_carry_the_prefill_and_then_the_samples() {
    let (mut capture, mut render) = DelayBuffer::new(2, 1).split();
    assert!(!capture.push_batch(&[31, 32]));
    assert!(capture.push_batch(&[33]));
    let mut out = vec![9u32; 5];
    assert!(render.pop_batch(&mut out));
    assert_eq!(out, vec![0, 0, 31, 32, 0]);
    assert!(!capture.push_batch(&[34, 35, 36, 37]));
    let mut rest = vec![9u32; 4];
    assert!(!render.pop_batch(&mut rest));
    assert_eq!(rest, vec![34, 35, 36, 37]);
}

#[test]
fn the_render_side_starts_with_one_latency_of_silence() {
    let (mut capture, mut render) = DelayBuffer::new(4, 2).split();
    assert!(!capture.push_batch(&[1, 2, 3]));
    let mut out = vec![9u32; 8];
    assert!(!render.pop_batch(&mut out));
    assert_eq!(out, vec![SILENCE; 8]);
    let mut next = vec![9u32; 3];
    assert!(!render.pop_batch(&mut next));
    assert_eq!(next, vec![1, 2, 3]);
}

#[test]
fn the_capture_side_has_one_latency_of_room_at_first() {
    let (mut capture, mut render) = DelayBuffer::new(3, 1).split();
    assert!(!capture.push_batch(&[1, 2, 3]));
    assert!(capture.push_batch(&[4]));
    let mut out = vec![9u32; 2];
    assert!(!render.pop_batch(&mut out));
    assert_eq!(out, vec![0, 0]);
    assert!(!capture.push_batch(&[5, 6]));
    assert!(capture.push_batch(&[7]));
    let mut rest = vec![9u32; 7];
    assert!(render.pop_batch(&mut rest));
    assert_eq!(rest, vec![0, 1, 2, 3, 5, 6, 0]);
}

#[test]
fn an_empty_batch_changes_nothing_on_either_side() {
    let (mut capture, mut render) = DelayBuffer::new(1, 1).split();
    assert!(!capture.push_batch(&[]));
    let mut none: Vec<u32> = Vec::new();
    assert!(!render.pop_batch(&mut none));
    let mut out = vec![9u32; 2];
    assert!(render.pop_batch(&mut out));
    assert_eq!(out, vec![0, 0]);
}

#[test]
fn float_samples_pass_through_unchanged() {
    let input = [0.5f32, -1.0, 0.0, 1.0e-3, f32::MIN_POSITIVE, -0.0];
    let bits: Vec<u32> = input.iter().map(|s| s.to_bits()).collect();
    let mut buffer = DelayBuffer::new(3, 2);
    assert!(!buffer.push_batch(&bits));
    let mut out = vec![1u32; 12];
    assert!(!buffer.pop_batch(&mut out));
    let floats: Vec<f32> = out.iter().map(|b| f32::from_bits(*b)).collect();
    assert_eq!(&floats[..6], &[0.0f32; 6]);
    assert_eq!(&out[6..], &bits[..]);
    assert_eq!(floats[6], 0.5);
    assert_eq!(floats[7], -1.0);
}

#[test]
fn fractional_latencies_round_to_the_nearest_frame() {
    assert_eq!(frames_for(0.01, 48000), 0);
    assert_eq!(frames_for(0.02, 48000), 1);
    assert_eq!(frames_for(10.5, 44100), 463);
    assert_eq!(DelayBuffer::sizing(frames_for(10.5, 44100), 2), Some(926));
    assert_eq!(DelayBuffer::sizing(frames_for(0.01, 48000), 2), None);
}

#[test]
fn a_batch_is_an_overrun_once_a_sample_is_refused() {
    assert!(!overrun_after(false, true));
    assert!(overrun_after(false, false));
    assert!(overrun_after(true, true));
    assert!(overrun_after(true, false));
}

#[test]
fn the_capture_side_queues_the_samples_it_is_given() {
    let (mut capture, mut render) = DelayBuffer::new(2, 1).split();
    assert!(!capture.push_batch(&[41, 42]));
    let mut out = vec![9u32; 4];
    assert!(!render.pop_batch(&mut out));
    assert_eq!(out, vec![0, 0, 41, 42]);
    assert!(!capture.push_batch(&[43, 44, 45, 46]));
    let mut rest = vec![9u32; 4];
    assert!(!render.pop_batch(&mut rest));
    assert_eq!(rest, vec![43, 44, 45, 46]);
}
