use pepper_shaper::queue::PepperRingBuffer;
use pepper_shaper::queue::RingBufferError;
use pepper_shaper::ring_model::MAX_CAPACITY;

fn ring(capacity: usize) -> PepperRingBuffer {
    match PepperRingBuffer::new(capacity) {
        Ok(rb) => rb,
        Err(e) => panic!("no ring buffer of {} bytes: {:?}", capacity, e),
    }
}

#[test]
fn new_rejects_zero_capacity() {
    assert!(matches!(PepperRingBuffer::new(0), Err(RingBufferError::ZeroCapacity)));
}

#[test]
fn new_rejects_capacity_above_maximum() {
    assert!(matches!(
        PepperRingBuffer::new(MAX_CAPACITY + 1),
        Err(RingBufferError::CapacityTooLarge)
    ));
    assert!(matches!(
        PepperRingBuffer::new(usize::MAX),
        Err(RingBufferError::CapacityTooLarge)
    ));
}

#[test]
fn maximum_capacity_is_64_mib() {
    assert_eq!(MAX_CAPACITY, 64 * 1024 * 1024);
}

#[test]
fn new_buffer_is_empty() {
    let rb = ring(16);
    assert_eq!(rb.capacity(), 16);
    assert_eq!(rb.used(), 0);
    assert_eq!(rb.available(), 15);
}

#[test]
fn capacity_one_holds_nothing() {
    let mut rb = ring(1);
    assert_eq!(rb.available(), 0);
    assert_eq!(rb.enqueue(&[7]), 0);
    assert_eq!(rb.used(), 0);
    let mut out = [0u8; 4];
    assert_eq!(rb.dequeue(&mut out), 0);
}

#[test]
fn from_storage_takes_length_as_capacity() {
    let rb = match PepperRingBuffer::from_storage(vec![9u8; 32]) {
        Ok(rb) => rb,
        Err(e) => panic!("storage refused: {:?}", e),
    };
    assert_eq!(rb.capacity(), 32);
    assert_eq!(rb.used(), 0);
    assert_eq!(rb.available(), 31);
}

#[test]
fn from_storage_rejects_empty_storage() {
    assert!(matches!(
        PepperRingBuffer::from_storage(Vec::new()),
        Err(RingBufferError::ZeroCapacity)
    ));
}

#[test]
fn from_storage_ignores_what_storage_held() {
    let mut rb = match PepperRingBuffer::from_storage(vec![0xAAu8; 8]) {
        Ok(rb) => rb,
        Err(e) => panic!("storage refused: {:?}", e),
    };
    let mut out = [0u8; 8];
    assert_eq!(rb.dequeue(&mut out), 0);
    assert_eq!(out, [0u8; 8]);
}

#[test]
fn enqueue_of_nothing_returns_zero() {
    let mut rb = ring(16);
    assert_eq!(rb.enqueue(&[]), 0);
    assert_eq!(rb.used(), 0);
}

#[test]
fn enqueue_reports_exact_count() {
    let mut rb = ring(16);
    assert_eq!(rb.enqueue(&[1, 2, 3, 4, 5]), 5);
    assert_eq!(rb.used(), 5);
    assert_eq!(rb.available(), 10);
}

#[test]
fn enqueue_accepts_only_what_fits() {
    let mut rb = ring(8);
    let data: Vec<u8> = (1..=20).collect();
    assert_eq!(rb.enqueue(&data), 7);
    assert_eq!(rb.used(), 7);
    assert_eq!(rb.available(), 0);
    let mut out = [0u8; 20];
    assert_eq!(rb.dequeue(&mut out), 7);
    assert_eq!(&out[..7], &[1, 2, 3, 4, 5, 6, 7]);
}

#[test]
fn enqueue_into_full_buffer_returns_zero() {
    let mut rb = ring(4);
    assert_eq!(rb.enqueue(&[1, 2, 3]), 3);
    assert_eq!(rb.enqueue(&[4]), 0);
    assert_eq!(rb.used(), 3);
}

#[test]
fn dequeue_from_empty_buffer_returns_zero() {
    let mut rb = ring(16);
    let mut out = [5u8; 4];
    assert_eq!(rb.dequeue(&mut out), 0);
    assert_eq!(out, [5u8; 4]);
}

#[test]
fn dequeue_into_empty_target_returns_zero() {
    let mut rb = ring(16);
    assert_eq!(rb.enqueue(&[1, 2, 3]), 3);
    let mut out: [u8; 0] = [];
    assert_eq!(rb.dequeue(&mut out), 0);
    assert_eq!(rb.used(), 3);
}

#[test]
fn dequeue_fills_front_and_leaves_rest() {
    let mut rb = ring(16);
    assert_eq!(rb.enqueue(&[10, 20, 30]), 3);
    let mut out = [0xFFu8; 6];
    assert_eq!(rb.dequeue(&mut out), 3);
    assert_eq!(out, [10, 20, 30, 0xFF, 0xFF, 0xFF]);
    assert_eq!(rb.used(), 0);
    assert_eq!(rb.available(), 15);
}

#[test]
fn dequeue_takes_oldest_bytes_first() {
    let mut rb = ring(16);
    assert_eq!(rb.enqueue(&[1, 2, 3, 4, 5, 6]), 6);
    let mut out = [0u8; 4];
    assert_eq!(rb.dequeue(&mut out), 4);
    assert_eq!(out, [1, 2, 3, 4]);
    assert_eq!(rb.used(), 2);
    let mut rest = [0u8; 4];
    assert_eq!(rb.dequeue(&mut rest), 2);
    assert_eq!(&rest[..2], &[5, 6]);
}

#[test]
fn round_trip_returns_bytes_unchanged() {
    let mut rb = ring(64);
    let data: Vec<u8> = (0..40).map(|i| (i * 7 + 3) as u8).collect();
    assert_eq!(rb.enqueue(&data), 40);
    let mut out = vec![0u8; 63];
    assert_eq!(rb.dequeue(&mut out), 40);
    assert_eq!(&out[..40], &data[..]);
    assert_eq!(rb.used(), 0);
}

#[test]
fn round_trip_behind_waiting_bytes() {
    let mut rb = ring(16);
    assert_eq!(rb.enqueue(&[1]), 1);
    assert_eq!(rb.enqueue(&[2, 3]), 2);
    let mut out = [0u8; 8];
    assert_eq!(rb.dequeue(&mut out), 3);
    assert_eq!(&out[..3], &[1, 2, 3]);
}

#[test]
fn wraparound_keeps_order() {
    let mut rb = ring(16);
    let first: Vec<u8> = (1..=12).collect();
    assert_eq!(rb.enqueue(&first), 12);
    let mut head = [0u8; 8];
    assert_eq!(rb.dequeue(&mut head), 8);
    assert_eq!(head, [1, 2, 3, 4, 5, 6, 7, 8]);
    let second: Vec<u8> = (101..=110).collect();
    assert_eq!(rb.enqueue(&second), 10);
    assert_eq!(rb.used(), 14);
    assert_eq!(rb.available(), 1);
    let mut out = [0u8; 14];
    assert_eq!(rb.dequeue(&mut out), 14);
    assert_eq!(out, [9, 10, 11, 12, 101, 102, 103, 104, 105, 106, 107, 108, 109, 110]);
    assert_eq!(rb.used(), 0);
}

#[test]
fn dequeue_across_the_wrap_boundary() {
    let mut rb = ring(8);
    assert_eq!(rb.enqueue(&[1, 2, 3, 4, 5, 6]), 6);
    let mut out = [0u8; 5];
    assert_eq!(rb.dequeue(&mut out), 5);
    assert_eq!(rb.enqueue(&[7, 8, 9, 10, 11]), 5);
    let mut all = [0u8; 7];
    assert_eq!(rb.dequeue(&mut all), 6);
    assert_eq!(&all[..6], &[6, 7, 8, 9, 10, 11]);
    assert_eq!(all[6], 0);
}

#[test]
fn many_laps_keep_order_and_bounds() {
    let capacity: usize = 13;
    let mut rb = ring(capacity);
    let mut next_in: u32 = 0;
    let mut next_out: u32 = 0;
    for round in 0..500usize {
        let want = round % 9 + 1;
        let chunk: Vec<u8> = (0..want).map(|k| ((next_in + k as u32) % 251) as u8).collect();
        let free = rb.available();
        let written = rb.enqueue(&chunk);
        assert_eq!(written, want.min(free));
        next_in += written as u32;
        assert!(rb.used() <= capacity - 1);
        assert_eq!(rb.used() + rb.available(), capacity - 1);
        let mut out = vec![0u8; round % 5 + 1];
        let held = rb.used();
        let read = rb.dequeue(&mut out);
        assert_eq!(read, out.len().min(held));
        for k in 0..read {
            assert_eq!(out[k], ((next_out + k as u32) % 251) as u8);
        }
        next_out += read as u32;
        assert!(next_out <= next_in);
        assert_eq!(rb.used() as u32, next_in - next_out);
    }
}

#[test]
fn dequeued_segments_are_a_prefix_of_enqueued_segments() {
    let mut rb = ring(10);
    let mut accepted: Vec<u8> = Vec::new();
    let mut delivered: Vec<u8> = Vec::new();
    let inputs: [&[u8]; 5] = [&[1, 2, 3], &[4, 5, 6, 7, 8, 9, 10, 11], &[12], &[13, 14, 15, 16], &[17, 18]];
    for (round, input) in inputs.iter().enumerate() {
        let written = rb.enqueue(input);
        accepted.extend_from_slice(&input[..written]);
        let mut out = vec![0u8; round + 2];
        let read = rb.dequeue(&mut out);
        delivered.extend_from_slice(&out[..read]);
        assert!(delivered.len() <= accepted.len());
        assert_eq!(&accepted[..delivered.len()], &delivered[..]);
    }
    let mut out = vec![0u8; 16];
    let read = rb.dequeue(&mut out);
    delivered.extend_from_slice(&out[..read]);
    assert_eq!(accepted, delivered);
}
