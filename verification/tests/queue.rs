use caudio::error::{AudioError, AudioUnitError, CAError};
use caudio::format::{LinearPcmFlags, SampleFormat};
use caudio::queue::{
    AudioQueueBuffer, AudioQueueInput, AudioQueueOutput, BufferState, InputCallback, QueueCall,
};
use caudio::stream_format::StreamFormat;
use caudio::timestamp::TimeStamp;
use std::collections::VecDeque;

struct Recorder {
    seen: Vec<f32>,
    stamps: Vec<TimeStamp>,
}

impl InputCallback<f32> for Recorder {
    fn audio_input(&mut self, start_time: TimeStamp, buffer: &AudioQueueBuffer<f32>) {
        println!("{:?}", start_time);
        self.seen.extend_from_slice(buffer.samples());
        self.stamps.push(start_time);
    }
}

fn float_format(sample_rate: f64, channels: usize) -> StreamFormat {
    StreamFormat::new(
        sample_rate.to_bits(),
        SampleFormat::F32,
        LinearPcmFlags::from_bits_truncate(LinearPcmFlags::IS_FLOAT),
        channels,
    )
}

fn int16_format() -> StreamFormat {
    StreamFormat::new(
        48_000.0f64.to_bits(),
        SampleFormat::I16,
        LinearPcmFlags::from_bits_truncate(LinearPcmFlags::IS_SIGNED_INTEGER),
        1,
    )
}

#[test]
fn test_queue_input() {
    let mut q = AudioQueueInput::<f32, Recorder>::new(
        &StreamFormat::new(
            44_100.0f64.to_bits(),
            SampleFormat::F32,
            LinearPcmFlags::from_bits_truncate(LinearPcmFlags::IS_FLOAT),
            2,
        ),
        Recorder { seen: Vec::new(), stamps: Vec::new() },
    )
    .unwrap();

    q.start(0).unwrap();
    assert!(q.is_running());

    // The host hands over what it has recorded.
    let start_time = TimeStamp::zero();
    println!("{:?}", start_time);
    q.dispatch(start_time, &AudioQueueBuffer::borrowed(vec![0.5f32; 4], 4));
    let (_, recorder) = q.teardown();
    assert_eq!(recorder.seen, vec![0.5f32; 4]);
}

#[test]
fn test_queue_output() {
    let mut q = AudioQueueOutput::<f32>::new(
        &StreamFormat::new(
            48_000.0f64.to_bits(),
            SampleFormat::F32,
            LinearPcmFlags::from_bits_truncate(LinearPcmFlags::IS_FLOAT),
            1,
        ),
        10,
        64,
    )
    .unwrap();

    q.start(0).unwrap();

    let angular_frequency = 2.0 * std::f32::consts::PI * 440.0;
    let sample_period = 1.0 / 48_000.0;
    let mut i = 0;
    let mut with_host: VecDeque<usize> = VecDeque::new();

    for _ in 0..300 {
        let buf = match q.request_buffer() {
            Some(buf) => buf,
            None => {
                // Every buffer is with the host: it reports the oldest one done.
                let done = with_host.pop_front().unwrap();
                assert!(q.buffer_completed(done));
                q.request_buffer().unwrap()
            }
        };
        q.resize(&buf, 128);
        assert_eq!(q.buffer(&buf).len(), 64);

        for k in 0..q.buffer(&buf).len() {
            *q.samples_mut(&buf, k) = (angular_frequency * i as f32 * sample_period).sin() * 0.1;
            i += 1;
        }

        with_host.push_back(buf.index());
        buf.enqueue(&mut q, 0).unwrap();
        assert!(q.outstanding() <= 10);
    }
    assert_eq!(i, 300 * 64);
    assert_eq!(q.outstanding(), 10);
}

#[test]
fn input_queue_hands_the_samples_in_use_to_the_callback() {
    let mut q = AudioQueueInput::<f32, Recorder>::new(
        &float_format(44_100.0, 2),
        Recorder { seen: Vec::new(), stamps: Vec::new() },
    )
    .unwrap();
    q.start(0).unwrap();
    let stamp = TimeStamp {
        sample_time: 1024.0f64.to_bits(),
        host_time: 77,
        rate_scalar: 1.0f64.to_bits(),
        word_clock_time: 0,
        flags: 3,
    };
    let buffer = AudioQueueBuffer::borrowed(vec![0.25f32, 0.5, 0.75, 1.0], 3);
    q.dispatch(stamp, &buffer);
    q.dispatch(TimeStamp::zero(), &AudioQueueBuffer::borrowed(vec![2.0f32], 5));
    let (calls, recorder) = q.teardown();
    assert_eq!(calls, vec![QueueCall::Stop, QueueCall::Dispose]);
    assert_eq!(recorder.seen, vec![0.25f32, 0.5, 0.75, 2.0]);
    assert_eq!(recorder.stamps, vec![stamp, TimeStamp::zero()]);
}

#[test]
fn input_queue_records_what_the_host_says_to_start_and_stop() {
    let mut q = AudioQueueInput::<f32, Recorder>::new(
        &float_format(44_100.0, 2),
        Recorder { seen: Vec::new(), stamps: Vec::new() },
    )
    .unwrap();
    assert!(!q.is_running());
    assert_eq!(q.start(-50), Err(CAError::AudioError(AudioError::Param)));
    assert!(!q.is_running());
    assert_eq!(q.start(0), Ok(()));
    assert!(q.is_running());
    assert_eq!(q.stop(-10867), Err(CAError::AudioUnitError(AudioUnitError::Uninitialized)));
    assert!(q.is_running());
    assert_eq!(q.stop(0), Ok(()));
    assert!(!q.is_running());
}

#[test]
fn queues_refuse_a_format_of_another_sample_size() {
    let out = AudioQueueOutput::<f32>::new(&int16_format(), 4, 16);
    assert!(matches!(out, Err(CAError::AudioUnitError(AudioUnitError::FormatNotSupported))));
    let out = AudioQueueOutput::<i16>::new(&int16_format(), 4, 16);
    assert!(out.is_ok());
    let input = AudioQueueInput::<i16, Recorder16>::new(&float_format(44_100.0, 1), Recorder16);
    assert!(matches!(input, Err(CAError::AudioUnitError(AudioUnitError::FormatNotSupported))));
}

struct Recorder16;

impl InputCallback<i16> for Recorder16 {
    fn audio_input(&mut self, _start_time: TimeStamp, _buffer: &AudioQueueBuffer<i16>) {}
}

#[test]
fn new_pool_has_every_buffer_free_and_empty() {
    let q = AudioQueueOutput::<f32>::new(&float_format(48_000.0, 1), 4, 32).unwrap();
    assert_eq!(q.len(), 4);
    assert_eq!(q.buffer_size(), 32);
    assert_eq!(q.available(), 4);
    assert_eq!(q.outstanding(), 0);
    assert!(!q.is_running());
    for i in 0..4 {
        assert_eq!(q.state(i), BufferState::Free);
    }
}

#[test]
fn pool_hands_out_each_buffer_once_then_waits_for_the_host() {
    let n = 6;
    let mut q = AudioQueueOutput::<f32>::new(&float_format(48_000.0, 1), n, 8).unwrap();
    let mut seen = Vec::new();
    for _ in 0..n {
        let buf = q.request_buffer().unwrap();
        assert!(!seen.contains(&buf.index()));
        seen.push(buf.index());
        buf.enqueue(&mut q, 0).unwrap();
    }
    assert_eq!(seen, vec![0, 1, 2, 3, 4, 5]);
    assert_eq!(q.available(), 0);
    assert_eq!(q.outstanding(), n);
    // A further request finds nothing until the host reports a buffer done.
    assert!(q.request_buffer().is_none());
    assert!(q.request_buffer().is_none());
    assert!(q.buffer_completed(3));
    let again = q.request_buffer().unwrap();
    assert_eq!(again.index(), 3);
    assert_eq!(q.state(3), BufferState::Acquired);
    again.enqueue(&mut q, 0).unwrap();
    assert_eq!(q.state(3), BufferState::Enqueued);
}

#[test]
fn released_buffer_is_free_at_once() {
    let mut q = AudioQueueOutput::<f32>::new(&float_format(48_000.0, 1), 1, 8).unwrap();
    let buf = q.request_buffer().unwrap();
    assert_eq!(buf.index(), 0);
    assert_eq!(q.available(), 0);
    assert!(q.request_buffer().is_none());
    buf.release(&mut q);
    assert_eq!(q.state(0), BufferState::Free);
    assert_eq!(q.available(), 1);
    // No report of the host was needed.
    let buf = q.request_buffer().unwrap();
    assert_eq!(buf.index(), 0);
    buf.release(&mut q);
}

#[test]
fn released_buffer_goes_behind_the_free_ones() {
    let mut q = AudioQueueOutput::<f32>::new(&float_format(48_000.0, 1), 3, 8).unwrap();
    let first = q.request_buffer().unwrap();
    first.release(&mut q);
    let order: Vec<usize> = (0..3)
        .map(|_| {
            let buf = q.request_buffer().unwrap();
            let index = buf.index();
            buf.enqueue(&mut q, 0).unwrap();
            index
        })
        .collect();
    assert_eq!(order, vec![1, 2, 0]);
}

#[test]
fn refused_buffer_is_free_again() {
    let mut q = AudioQueueOutput::<f32>::new(&float_format(48_000.0, 1), 2, 8).unwrap();
    let buf = q.request_buffer().unwrap();
    assert_eq!(buf.enqueue(&mut q, -50), Err(CAError::AudioError(AudioError::Param)));
    assert_eq!(q.state(0), BufferState::Free);
    assert_eq!(q.available(), 2);
    assert_eq!(q.outstanding(), 0);
    assert_eq!(q.request_buffer().unwrap().index(), 1);
    assert_eq!(q.request_buffer().unwrap().index(), 0);
}

#[test]
fn report_for_a_buffer_that_is_not_with_the_host_changes_nothing() {
    let mut q = AudioQueueOutput::<f32>::new(&float_format(48_000.0, 1), 2, 8).unwrap();
    assert!(!q.buffer_completed(0));
    assert!(!q.buffer_completed(2));
    assert!(!q.buffer_completed(usize::MAX));
    let buf = q.request_buffer().unwrap();
    assert!(!q.buffer_completed(0));
    assert_eq!(q.state(0), BufferState::Acquired);
    assert_eq!(q.available(), 1);
    buf.enqueue(&mut q, 0).unwrap();
    assert!(q.buffer_completed(0));
    assert!(!q.buffer_completed(0));
    assert_eq!(q.available(), 2);
}

#[test]
fn resize_clamps_to_the_capacity() {
    let mut b = AudioQueueBuffer::<f32>::new(64);
    assert_eq!(b.capacity(), 64);
    assert_eq!(b.len(), 0);
    assert!(b.is_owned());
    for &(len, expected) in
        &[(0usize, 0usize), (1, 1), (63, 63), (64, 64), (65, 64), (128, 64), (usize::MAX, 64)]
    {
        b.resize(len);
        assert_eq!(b.len(), expected);
        assert_eq!(b.samples().len(), expected);
        assert_eq!(b.capacity(), 64);
        b.resize(len);
        assert_eq!(b.len(), expected);
    }
}

#[test]
fn buffer_counts_its_bytes() {
    let mut b = AudioQueueBuffer::<f32>::new(64);
    assert_eq!(b.byte_capacity(), 256);
    assert_eq!(b.byte_size(), 0);
    b.resize(10);
    assert_eq!(b.byte_size(), 40);
    b.resize(128);
    assert_eq!(b.byte_size(), 256);
    let mut c = AudioQueueBuffer::<i16>::new(5);
    c.resize(3);
    assert_eq!(c.byte_capacity(), 10);
    assert_eq!(c.byte_size(), 6);
}

#[test]
fn resize_keeps_what_is_stored() {
    let mut b = AudioQueueBuffer::<i32>::new(4);
    b.resize(4);
    for k in 0..4 {
        *b.samples_mut(k) = 10 + k as i32;
    }
    b.resize(2);
    assert_eq!(b.samples(), &[10, 11][..]);
    b.resize(9);
    assert_eq!(b.samples(), &[10, 11, 12, 13][..]);
}

#[test]
fn borrowed_buffer_stands_for_memory_of_the_host() {
    let b = AudioQueueBuffer::borrowed(vec![1i16, 2, 3, 4], 2);
    assert!(!b.is_owned());
    assert_eq!(b.capacity(), 4);
    assert_eq!(b.len(), 2);
    assert_eq!(b.samples(), &[1i16, 2][..]);
    let b = AudioQueueBuffer::borrowed(vec![1i16, 2, 3, 4], 9);
    assert_eq!(b.len(), 4);
}

#[test]
fn pool_buffers_are_written_through_the_handle() {
    let mut q = AudioQueueOutput::<i16>::new(&int16_format(), 2, 4).unwrap();
    let a = q.request_buffer().unwrap();
    let b = q.request_buffer().unwrap();
    q.resize(&a, 3);
    q.resize(&b, 10);
    for k in 0..3 {
        *q.samples_mut(&a, k) = 1 + k as i16;
    }
    for k in 0..4 {
        *q.samples_mut(&b, k) = 10 * (1 + k as i16);
    }
    assert_eq!(q.samples(&a), &[1i16, 2, 3][..]);
    assert_eq!(q.samples(&b), &[10i16, 20, 30, 40][..]);
    assert_eq!(q.buffer(&a).byte_size(), 6);
    assert_eq!(q.buffer(&b).capacity(), 4);
    a.release(&mut q);
    b.release(&mut q);
}

#[test]
fn pool_records_what_the_host_says_to_start_and_stop() {
    let mut q = AudioQueueOutput::<f32>::new(&float_format(48_000.0, 1), 2, 8).unwrap();
    assert_eq!(q.start(561017960), Err(CAError::AudioError(AudioError::BadFilePath)));
    assert!(!q.is_running());
    assert_eq!(q.start(0), Ok(()));
    assert!(q.is_running());
    assert_eq!(q.stop(12345), Err(CAError::Unknown(12345)));
    assert!(q.is_running());
    assert_eq!(q.stop(0), Ok(()));
    assert!(!q.is_running());
}

#[test]
fn pool_teardown_stops_frees_and_disposes() {
    let q = AudioQueueOutput::<f32>::new(&float_format(48_000.0, 1), 3, 8).unwrap();
    assert_eq!(
        q.teardown(),
        vec![
            QueueCall::Stop,
            QueueCall::FreeBuffer(0),
            QueueCall::FreeBuffer(1),
            QueueCall::FreeBuffer(2),
            QueueCall::Dispose,
        ]
    );
    let q = AudioQueueOutput::<f32>::new(&float_format(48_000.0, 1), 0, 8).unwrap();
    assert_eq!(q.teardown(), vec![QueueCall::Stop, QueueCall::Dispose]);
}

#[test]
fn input_queue_owns_a_callback_whose_type_it_does_not_name() {
    let callback: Box<dyn InputCallback<f32>> =
        Box::new(Recorder { seen: Vec::new(), stamps: Vec::new() });
    let mut q =
        AudioQueueInput::<f32, Box<dyn InputCallback<f32>>>::new(&float_format(44_100.0, 2), callback)
            .unwrap();
    q.dispatch(TimeStamp::zero(), &AudioQueueBuffer::borrowed(vec![1.0f32, 2.0], 1));
    let (calls, _callback) = q.teardown();
    assert_eq!(calls, vec![QueueCall::Stop, QueueCall::Dispose]);
}
