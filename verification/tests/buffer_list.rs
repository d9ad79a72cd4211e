use caudio::unit::buffer::{AudioBuffer, AudioBufferList};

#[test]
fn owned_non_interleaved() {
    let b = AudioBufferList::<f32>::new(2, 1, 512);
    assert_eq!(b.len(), 2);
    assert_eq!(b.buffers()[0].channels(), 1);
    assert_eq!(b.buffers()[1].frames(), 512);
}

#[test]
fn owned_interleaved() {
    let b = AudioBufferList::<f32>::new(1, 2, 512);
    assert_eq!(b.len(), 1);
    assert_eq!(b.buffers()[0].channels(), 2);
    assert_eq!(b.buffers()[0].frames(), 512);
}

#[test]
fn debug_print() {
    let b = AudioBufferList::<f32>::new(1, 2, 512);
    println!("{:?}", b);
    let shown = format!("{:?}", b);
    assert!(shown.contains("AudioBufferList"));
}

#[test]
fn owned_list_has_the_shape_it_was_asked_for() {
    for &(buffers, channels, frames) in
        &[(1usize, 1usize, 1usize), (2, 1, 512), (1, 2, 512), (3, 2, 7), (5, 4, 16), (8, 1, 64)]
    {
        let b = AudioBufferList::<i16>::new(buffers, channels, frames);
        assert_eq!(b.len(), buffers);
        assert!(b.is_owned());
        assert_eq!(b.capacity(), buffers * channels * frames);
        assert_eq!(b.channels(), channels);
        assert_eq!(b.frames(), frames);
        for (i, d) in b.buffers().iter().enumerate() {
            assert_eq!(d.channels(), channels);
            assert_eq!(d.frames(), frames);
            assert_eq!(d.len(), channels * frames);
            assert_eq!(d.data_byte_size() as usize, channels * frames * 2);
            assert_eq!(d.offset(), i * channels * frames);
            assert_eq!(b.samples(i).len(), channels * frames);
        }
    }
}

#[test]
fn owned_list_of_f32_counts_four_bytes_a_sample() {
    let b = AudioBufferList::<f32>::new(2, 2, 512);
    assert_eq!(b.buffers()[0].data_byte_size(), 4096);
    assert_eq!(b.buffers()[1].data_byte_size(), 4096);
    assert_eq!(b.buffers()[1].offset(), 1024);
    assert_eq!(b.capacity(), 2048);
}

#[test]
fn list_of_no_buffers_is_empty() {
    let b = AudioBufferList::<f32>::new(0, 2, 512);
    assert_eq!(b.len(), 0);
    assert_eq!(b.channels(), 0);
    assert_eq!(b.frames(), 0);
    assert_eq!(b.capacity(), 0);
    assert!(b.buffers().is_empty());
}

#[test]
fn buffer_without_channels_has_no_frames() {
    let b = AudioBufferList::<f32>::new(2, 0, 512);
    assert_eq!(b.len(), 2);
    assert_eq!(b.buffers()[0].channels(), 0);
    assert_eq!(b.buffers()[0].len(), 0);
    assert_eq!(b.buffers()[0].frames(), 0);
    assert_eq!(b.frames(), 0);
}

#[test]
fn owned_samples_start_as_default() {
    let b = AudioBufferList::<i32>::new(2, 2, 4);
    assert_eq!(b.samples(0), &[0i32; 8][..]);
    assert_eq!(b.samples(1), &[0i32; 8][..]);
}

#[test]
fn buffers_of_a_list_do_not_overlap() {
    let mut b = AudioBufferList::<i32>::new(3, 2, 4);
    for i in 0..b.len() {
        for k in 0..b.buffers()[i].len() {
            *b.samples_mut(i, k) = (100 * i + k) as i32;
        }
    }
    for i in 0..b.len() {
        let expected: Vec<i32> = (0..8).map(|k| (100 * i + k) as i32).collect();
        assert_eq!(b.samples(i), &expected[..]);
    }
    let all: usize = b.buffers().iter().map(|d: &AudioBuffer<i32>| d.len()).sum();
    assert_eq!(all, b.capacity());
}

#[test]
fn borrowed_list_takes_the_buffers_of_the_host_in_order() {
    let mut b = AudioBufferList::<f32>::borrow();
    assert!(!b.is_owned());
    assert_eq!(b.len(), 0);
    assert_eq!(b.channels(), 0);
    assert_eq!(b.frames(), 0);
    b.push(2, vec![1.0, 2.0, 3.0, 4.0]);
    b.push(1, vec![5.0, 6.0, 7.0]);
    assert_eq!(b.len(), 2);
    assert_eq!(b.channels(), 2);
    assert_eq!(b.frames(), 2);
    assert_eq!(b.buffers()[0].data_byte_size(), 16);
    assert_eq!(b.buffers()[0].offset(), 0);
    assert_eq!(b.buffers()[1].channels(), 1);
    assert_eq!(b.buffers()[1].data_byte_size(), 12);
    assert_eq!(b.buffers()[1].offset(), 4);
    assert_eq!(b.buffers()[1].frames(), 3);
    assert_eq!(b.samples(0), &[1.0f32, 2.0, 3.0, 4.0][..]);
    assert_eq!(b.samples(1), &[5.0f32, 6.0, 7.0][..]);
    *b.samples_mut(1, 2) = 9.0;
    assert_eq!(b.samples(1), &[5.0f32, 6.0, 9.0][..]);
    assert_eq!(b.samples(0), &[1.0f32, 2.0, 3.0, 4.0][..]);
    assert_eq!(b.capacity(), 7);
}

#[test]
fn host_form_of_a_list_grows_by_one_description_a_buffer() {
    let none = AudioBufferList::<f32>::new(0, 1, 1);
    let one = AudioBufferList::<f32>::new(1, 1, 1);
    let two = AudioBufferList::<f32>::new(2, 1, 1);
    let five = AudioBufferList::<f32>::new(5, 1, 1);
    assert_eq!(none.header_byte_size(24, 16), Some(24));
    assert_eq!(one.header_byte_size(24, 16), Some(24));
    assert_eq!(two.header_byte_size(24, 16), Some(40));
    assert_eq!(five.header_byte_size(24, 16), Some(88));
    assert_eq!(five.header_byte_size(16, 12), Some(64));
    assert_eq!(two.header_byte_size(usize::MAX, 16), None);
    assert_eq!(five.header_byte_size(24, usize::MAX), None);
    assert_eq!(one.header_byte_size(usize::MAX, usize::MAX), Some(usize::MAX));
}
