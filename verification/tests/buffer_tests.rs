use radio_player::buffer::{BoundedBuffer, ReadOutcome};

fn buffer(capacity: usize) -> BoundedBuffer {
    match BoundedBuffer::new(capacity) {
        Some(buffer) => buffer,
        None => panic!("no buffer of capacity {}", capacity),
    }
}

fn data(outcome: ReadOutcome) -> Vec<u8> {
    match outcome {
        ReadOutcome::Data(bytes) => bytes,
        ReadOutcome::Pending => panic!("the reader was told to wait"),
        ReadOutcome::End => panic!("the reader was told of the end"),
    }
}

#[test]
fn buffer_needs_a_positive_capacity() {
    assert!(BoundedBuffer::new(0).is_none());
    assert!(BoundedBuffer::new(1).is_some());
    assert!(BoundedBuffer::new(usize::MAX).is_none());
}

#[test]
fn new_buffer_is_empty_and_open() {
    let b = buffer(8);
    assert_eq!(b.capacity(), 8);
    assert_eq!(b.len(), 0);
    assert!(b.is_empty());
    assert_eq!(b.free_space(), 8);
    assert!(!b.is_closed());
    assert_eq!(b.total_accepted(), 0);
}

#[test]
fn bytes_come_out_in_the_order_they_went_in() {
    let mut b = buffer(16);
    assert_eq!(b.write(&[1, 2, 3]), 3);
    assert_eq!(b.write(&[4, 5]), 2);
    assert_eq!(b.len(), 5);
    assert_eq!(data(b.read(2)), vec![1, 2]);
    assert_eq!(data(b.read(10)), vec![3, 4, 5]);
    assert!(b.is_empty());
}

#[test]
fn read_returns_what_was_written_not_zeroes() {
    let mut b = buffer(4);
    assert_eq!(b.write(&[9, 8, 7]), 3);
    assert_eq!(data(b.read(3)), vec![9, 8, 7]);
}

#[test]
fn write_takes_only_what_fits() {
    let mut b = buffer(4);
    assert_eq!(b.write(&[1, 2, 3, 4, 5, 6]), 4);
    assert_eq!(b.len(), 4);
    assert_eq!(b.free_space(), 0);
    assert_eq!(b.write(&[5, 6]), 0);
    assert_eq!(b.len(), 4);
    assert_eq!(data(b.read(4)), vec![1, 2, 3, 4]);
}

#[test]
fn held_back_bytes_go_in_once_space_is_free() {
    let mut b = buffer(4);
    let stream = [1u8, 2, 3, 4, 5, 6, 7];
    let mut sent = b.write(&stream);
    assert_eq!(sent, 4);
    assert_eq!(data(b.read(3)), vec![1, 2, 3]);
    sent += b.write(&stream[sent..]);
    assert_eq!(sent, 7);
    assert_eq!(b.len(), 4);
    assert_eq!(data(b.read(4)), vec![4, 5, 6, 7]);
}

#[test]
fn count_never_exceeds_capacity() {
    let mut b = buffer(5);
    let mut next: u8 = 0;
    let mut expected: u8 = 0;
    let mut total: usize = 0;
    for round in 0..200usize {
        let chunk: Vec<u8> = (0..(round % 7)).map(|i| next.wrapping_add(i as u8)).collect();
        let before = b.len();
        let taken = b.write(&chunk);
        assert_eq!(taken, chunk.len().min(5 - before));
        next = next.wrapping_add(taken as u8);
        total += taken;
        assert!(b.len() <= b.capacity());
        assert_eq!(b.len(), before + taken);
        if let ReadOutcome::Data(bytes) = b.read(round % 4) {
            for byte in bytes {
                assert_eq!(byte, expected);
                expected = expected.wrapping_add(1);
            }
        }
        assert!(b.len() <= b.capacity());
    }
    assert_eq!(b.total_accepted(), total);
}

#[test]
fn buffer_wraps_around_its_storage() {
    let mut b = buffer(3);
    let mut out = Vec::new();
    for value in 0..20u8 {
        assert_eq!(b.write(&[value]), 1);
        if value % 2 == 1 {
            out.extend(data(b.read(2)));
        }
    }
    assert_eq!(out, (0..20u8).collect::<Vec<u8>>());
}

#[test]
fn read_of_more_than_capacity_gives_what_is_there() {
    let mut b = buffer(3);
    assert_eq!(b.write(&[1, 2, 3]), 3);
    assert_eq!(data(b.read(1000)), vec![1, 2, 3]);
}

#[test]
fn read_of_nothing_takes_nothing() {
    let mut b = buffer(3);
    assert_eq!(b.write(&[1, 2]), 2);
    assert_eq!(data(b.read(0)), Vec::<u8>::new());
    assert_eq!(b.len(), 2);
}

#[test]
fn empty_open_buffer_makes_the_reader_wait() {
    let mut b = buffer(3);
    assert!(matches!(b.read(1), ReadOutcome::Pending));
    assert_eq!(b.write(&[1]), 1);
    assert_eq!(data(b.read(1)), vec![1]);
    assert!(matches!(b.read(1), ReadOutcome::Pending));
}

#[test]
fn closed_buffer_drains_and_then_ends() {
    let mut b = buffer(4);
    assert_eq!(b.write(&[1, 2]), 2);
    b.close();
    assert!(b.is_closed());
    assert_eq!(data(b.read(1)), vec![1]);
    assert_eq!(data(b.read(1)), vec![2]);
    assert!(matches!(b.read(1), ReadOutcome::End));
    assert!(matches!(b.read(1), ReadOutcome::End));
}

#[test]
fn closed_buffer_accepts_nothing() {
    let mut b = buffer(4);
    assert_eq!(b.write(&[1]), 1);
    b.close();
    assert_eq!(b.write(&[2, 3]), 0);
    assert_eq!(b.len(), 1);
    assert_eq!(b.total_accepted(), 1);
    assert_eq!(data(b.read(4)), vec![1]);
}

#[test]
fn accepted_counts_every_byte_taken() {
    let mut b = buffer(2);
    assert_eq!(b.write(&[1, 2, 3]), 2);
    assert_eq!(b.total_accepted(), 2);
    data(b.read(2));
    assert_eq!(b.write(&[3]), 1);
    assert_eq!(b.total_accepted(), 3);
}

#[test]
fn buffer_of_the_engine_capacity_holds_a_full_window() {
    let mut b = buffer(512 * 1024);
    let chunk = vec![7u8; 300 * 1024];
    assert_eq!(b.write(&chunk), 300 * 1024);
    assert_eq!(b.write(&chunk), 212 * 1024);
    assert_eq!(b.len(), 512 * 1024);
    assert_eq!(data(b.read(512 * 1024)).len(), 512 * 1024);
    assert!(b.is_empty());
}
