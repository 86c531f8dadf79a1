use shifter::ring_buffer::{AudioRingBuffer, ReadResult};

#[test]
fn write_then_read() {
    let mut rb = AudioRingBuffer::new(1024);
    let input = [1.0_f32, 2.0, 3.0, 4.0];
    rb.write(&input);

    let mut output = [0.0_f32; 4];
    let result = rb.read(&mut output);
    assert_eq!(result, ReadResult::Success);
    assert_eq!(output, [1.0, 2.0, 3.0, 4.0]);
}

#[test]
fn underrun_before_write() {
    let mut rb = AudioRingBuffer::<f32>::new(1024);
    let mut output = [0.0_f32; 4];
    let result = rb.read(&mut output);
    assert_eq!(result, ReadResult::Underrun);
    assert_eq!(output, [0.0; 4]);
}

#[test]
fn wrap_around() {
    let mut rb = AudioRingBuffer::new(8);
    let input = [1.0_f32, 2.0, 3.0, 4.0, 5.0, 6.0];
    rb.write(&input);

    let mut output = [0.0_f32; 6];
    rb.read(&mut output);
    assert_eq!(output, [1.0, 2.0, 3.0, 4.0, 5.0, 6.0]);

    let input2 = [7.0_f32, 8.0, 9.0, 10.0];
    rb.write(&input2);

    let mut output2 = [0.0_f32; 4];
    let result = rb.read(&mut output2);
    assert_eq!(result, ReadResult::Success);
    assert_eq!(output2, [7.0, 8.0, 9.0, 10.0]);
}

#[test]
fn seek_position() {
    let mut rb = AudioRingBuffer::new(1024);
    let input: Vec<f32> = (0..100).map(|i| i as f32).collect();
    rb.write(&input);

    rb.set_read_position(50);
    let mut output = [0.0_f32; 4];
    rb.read(&mut output);
    assert_eq!(output, [50.0, 51.0, 52.0, 53.0]);
}

#[test]
fn delay_samples_tracking() {
    let mut rb = AudioRingBuffer::new(1024);
    let input = [0.0_f32; 100];
    rb.write(&input);
    assert_eq!(rb.delay_samples(), 100);

    let mut output = [0.0_f32; 30];
    rb.read(&mut output);
    assert_eq!(rb.delay_samples(), 70);
}

#[test]
fn full_buffer_write_reads_back() {
    let mut rb = AudioRingBuffer::new(8);
    let input = [1.0_f32, 2.0, 3.0, 4.0, 5.0, 6.0, 7.0, 8.0];
    rb.write(&input);
    let mut output = [0.0_f32; 8];
    assert_eq!(rb.read(&mut output), ReadResult::Success);
    assert_eq!(output, input);
    // Caught up again: the next full buffer also reads back whole.
    let input2 = [9.0_f32, 10.0, 11.0, 12.0, 13.0, 14.0, 15.0, 16.0];
    rb.write(&input2);
    assert_eq!(rb.read(&mut output), ReadResult::Success);
    assert_eq!(output, input2);
}

#[test]
fn overfill_overruns_to_midpoint() {
    let mut rb = AudioRingBuffer::new(8);
    let input: Vec<f32> = (0..11).map(|i| i as f32).collect();
    rb.write(&input);
    let mut output = [5.0_f32; 3];
    assert_eq!(rb.read(&mut output), ReadResult::Overrun);
    assert_eq!(output, [0.0; 3]);
    assert_eq!(rb.write_position() - rb.read_position(), 4);
    assert_eq!(rb.read_position(), 7);
    // After the resync the retained samples read back.
    assert_eq!(rb.read(&mut output), ReadResult::Success);
    assert_eq!(output, [7.0, 8.0, 9.0]);
}

#[test]
fn overrun_needs_more_than_a_full_buffer() {
    let mut rb = AudioRingBuffer::new(4);
    rb.write(&[1.0_f32, 2.0, 3.0, 4.0]);
    let mut output = [0.0_f32; 1];
    assert_eq!(rb.read(&mut output), ReadResult::Success);
    assert_eq!(output, [1.0]);
    rb.write(&[5.0_f32, 6.0]);
    // Six written, one read: five behind, more than the capacity of four.
    assert_eq!(rb.read(&mut output), ReadResult::Overrun);
    assert_eq!(rb.read_position(), 4);
}

#[test]
fn underrun_keeps_read_position() {
    let mut rb = AudioRingBuffer::new(16);
    rb.write(&[1.0_f32, 2.0, 3.0]);
    let mut output = [9.0_f32; 4];
    assert_eq!(rb.read(&mut output), ReadResult::Underrun);
    assert_eq!(output, [0.0; 4]);
    assert_eq!(rb.read_position(), 0);
    assert_eq!(rb.delay_samples(), 3);
}

#[test]
fn delay_never_underflows() {
    let mut rb = AudioRingBuffer::new(16);
    rb.write(&[1.0_f32, 2.0]);
    rb.set_read_position(10);
    assert_eq!(rb.delay_samples(), 0);
    let mut output = [0.0_f32; 1];
    assert_eq!(rb.read(&mut output), ReadResult::Underrun);
}

#[test]
fn delay_matches_cursors_after_each_pair() {
    let mut rb = AudioRingBuffer::new(32);
    let mut output = [0.0_f32; 5];
    for round in 0..10 {
        let chunk: Vec<f32> = (0..7).map(|i| (round * 7 + i) as f32).collect();
        rb.write(&chunk);
        rb.read(&mut output);
        assert!(rb.read_position() <= rb.write_position());
        assert_eq!(rb.delay_samples(), rb.write_position() - rb.read_position());
    }
}

#[test]
fn usage_and_capacity() {
    let mut rb = AudioRingBuffer::new(200);
    assert!(!rb.is_active());
    rb.write(&[0.5_f32; 50]);
    assert!(rb.is_active());
    assert_eq!(rb.capacity(), 200);
    assert_eq!(rb.usage_fraction(), (50, 200));
}
