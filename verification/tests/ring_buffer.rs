use mix_mixer::ring_buffer::SpscRingBuffer;

#[test]
fn push_pop_roundtrip() {
    let mut rb = SpscRingBuffer::new(8, 0.0f32);
    assert_eq!(rb.push(&[1.0, 2.0, 3.0]), 3);
    let mut out = [0.0; 3];
    assert_eq!(rb.pop_into(&mut out), 3);
    assert_eq!(out, [1.0, 2.0, 3.0]);
}

#[test]
fn push_truncates_when_full() {
    let mut rb = SpscRingBuffer::new(4, 0i32);
    assert_eq!(rb.push(&[1, 2, 3]), 3);
    assert_eq!(rb.push(&[4, 5, 6]), 1);
    assert_eq!(rb.available(), 4);
    let mut out = [9; 6];
    assert_eq!(rb.pop_into(&mut out), 4);
    assert_eq!(out, [1, 2, 3, 4, 0, 0]);
    assert_eq!(rb.available(), 0);
}

#[test]
fn pop_pads_with_silence_when_empty() {
    let mut rb = SpscRingBuffer::new(4, -1i16);
    let mut out = [7i16; 3];
    assert_eq!(rb.pop_into(&mut out), 0);
    assert_eq!(out, [-1, -1, -1]);
}

#[test]
fn wraps_around_capacity_in_order() {
    let mut rb = SpscRingBuffer::new(3, 0u8);
    let mut out = [0u8; 2];
    for round in 0..5u8 {
        assert_eq!(rb.push(&[round * 2, round * 2 + 1]), 2);
        assert_eq!(rb.pop_into(&mut out), 2);
        assert_eq!(out, [round * 2, round * 2 + 1]);
    }
    assert_eq!(rb.capacity(), 3);
}

#[test]
fn clear_empties_buffer() {
    let mut rb = SpscRingBuffer::new(8, 0.0f32);
    rb.push(&[0.5, 0.25]);
    rb.clear();
    assert_eq!(rb.available(), 0);
    let mut out = [1.0f32; 2];
    assert_eq!(rb.pop_into(&mut out), 0);
    assert_eq!(out, [0.0, 0.0]);
}

#[test]
fn zero_capacity_takes_nothing() {
    let mut rb = SpscRingBuffer::new(0, 0u32);
    assert_eq!(rb.push(&[1, 2]), 0);
    let mut out = [5u32; 2];
    assert_eq!(rb.pop_into(&mut out), 0);
    assert_eq!(out, [0, 0]);
}
