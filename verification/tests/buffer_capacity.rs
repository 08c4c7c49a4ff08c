use game_of_life::buffers::{smallest_power_of_two, BufferCapacity, Upload};

#[test]
fn smallest_power_of_two_at_least_n() {
    assert_eq!(smallest_power_of_two(0), 1);
    assert_eq!(smallest_power_of_two(1), 1);
    assert_eq!(smallest_power_of_two(2), 2);
    assert_eq!(smallest_power_of_two(3), 4);
    assert_eq!(smallest_power_of_two(4), 4);
    assert_eq!(smallest_power_of_two(5), 8);
    assert_eq!(smallest_power_of_two(1023), 1024);
    assert_eq!(smallest_power_of_two(1024), 1024);
    assert_eq!(smallest_power_of_two(1025), 2048);
    assert_eq!(smallest_power_of_two(22400), 32768);
}

#[test]
fn smallest_power_of_two_agrees_with_the_standard_library() {
    for n in 0..5000usize {
        assert_eq!(smallest_power_of_two(n), n.next_power_of_two() as u128);
    }
    let top = usize::MAX / 2 + 1;
    assert_eq!(smallest_power_of_two(top), top as u128);
    assert_eq!(smallest_power_of_two(top - 1), top as u128);
    assert_eq!(smallest_power_of_two(top / 2 + 1), top as u128);
}

#[test]
fn smallest_power_of_two_above_the_largest_in_usize() {
    let top = usize::MAX / 2 + 1;
    assert_eq!(smallest_power_of_two(top + 1), 2 * top as u128);
    assert_eq!(smallest_power_of_two(usize::MAX), 2 * top as u128);
}

#[test]
fn capacity_grows_for_the_largest_count() {
    let mut buffer = BufferCapacity::new(16);
    assert!(buffer.ensure(usize::MAX));
    assert_eq!(buffer.capacity(), usize::MAX as u128 + 1);
    assert!(!buffer.ensure(usize::MAX));
    assert!(!buffer.ensure(0));
    assert_eq!(buffer.capacity(), usize::MAX as u128 + 1);

    let mut full = BufferCapacity::new(usize::MAX);
    assert!(!full.ensure(usize::MAX));
    assert_eq!(full.capacity(), usize::MAX as u128);
}

#[test]
fn plan_for_the_largest_count_and_stride() {
    let mut buffer = BufferCapacity::new(0);
    let most = usize::MAX as u128;
    assert_eq!(
        buffer.plan(usize::MAX, usize::MAX),
        Upload::Reallocate { capacity_bytes: (most + 1) * most, bytes: most * most }
    );
    assert_eq!(buffer.plan(usize::MAX, usize::MAX), Upload::Write { bytes: most * most });
    assert_eq!(buffer.plan(0, usize::MAX), Upload::Nothing);
    assert_eq!(buffer.plan(5, 0), Upload::Write { bytes: 0 });
}

#[test]
fn capacity_grows_to_the_next_power_of_two() {
    let mut buffer = BufferCapacity::new(4096);
    assert_eq!(buffer.capacity(), 4096);
    assert!(!buffer.ensure(100));
    assert_eq!(buffer.capacity(), 4096);
    assert!(!buffer.ensure(4096));
    assert_eq!(buffer.capacity(), 4096);
    assert!(buffer.ensure(5000));
    assert_eq!(buffer.capacity(), 8192);
    assert!(buffer.ensure(8193));
    assert_eq!(buffer.capacity(), 16384);
}

#[test]
fn capacity_never_shrinks() {
    let mut buffer = BufferCapacity::new(16);
    let frames = [3usize, 40, 7, 0, 64, 65, 1, 200, 128, 2];
    let mut largest = 0;
    let mut before = buffer.capacity();
    for required in frames {
        let grew = buffer.ensure(required);
        largest = largest.max(required as u128);
        assert_eq!(grew, required as u128 > before);
        assert!(buffer.capacity() >= before);
        assert!(buffer.capacity() >= largest);
        assert!(buffer.capacity().is_power_of_two());
        before = buffer.capacity();
    }
    assert_eq!(before, 256);
}

#[test]
fn capacity_keeps_an_initial_value_that_is_no_power_of_two() {
    let mut buffer = BufferCapacity::new(22400);
    assert!(!buffer.ensure(100));
    assert!(!buffer.ensure(22400));
    assert_eq!(buffer.capacity(), 22400);
    assert!(buffer.ensure(22401));
    assert_eq!(buffer.capacity(), 32768);
    assert!(!buffer.ensure(22400));
    assert_eq!(buffer.capacity(), 32768);
}

#[test]
fn capacity_from_nothing() {
    let mut buffer = BufferCapacity::new(0);
    assert!(!buffer.ensure(0));
    assert_eq!(buffer.capacity(), 0);
    assert!(buffer.ensure(1));
    assert_eq!(buffer.capacity(), 1);
    assert!(buffer.ensure(2));
    assert_eq!(buffer.capacity(), 2);
    assert!(buffer.ensure(3));
    assert_eq!(buffer.capacity(), 4);
}

#[test]
fn plan_writes_only_what_the_frame_produced() {
    let mut buffer = BufferCapacity::new(4096);
    assert_eq!(buffer.plan(0, 20), Upload::Nothing);
    assert_eq!(buffer.capacity(), 4096);
    assert_eq!(buffer.plan(1890, 20), Upload::Write { bytes: 37800 });
    assert_eq!(buffer.capacity(), 4096);
    assert_eq!(buffer.plan(4096, 20), Upload::Write { bytes: 81920 });
    assert_eq!(
        buffer.plan(4097, 20),
        Upload::Reallocate { capacity_bytes: 163840, bytes: 81940 }
    );
    assert_eq!(buffer.capacity(), 8192);
    assert_eq!(buffer.plan(12, 20), Upload::Write { bytes: 240 });
    assert_eq!(buffer.capacity(), 8192);
}

#[test]
fn plan_for_the_grid_instances() {
    let mut buffer = BufferCapacity::new(200 * 112);
    assert_eq!(buffer.plan(22400, 32), Upload::Write { bytes: 716800 });
    assert_eq!(
        buffer.plan(30000, 32),
        Upload::Reallocate { capacity_bytes: 1048576, bytes: 960000 }
    );
    assert_eq!(buffer.plan(0, 32), Upload::Nothing);
    assert_eq!(buffer.capacity(), 32768);
}
