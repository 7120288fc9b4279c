use shmempipe::ring::Ring;

#[test]
fn push_then_pop_is_fifo() {
    let mut r = Ring::new(8);
    assert_eq!(r.capacity(), 8);
    assert_eq!(r.push_slice(&[1, 2, 3, 4, 5, 6]), 6);
    assert_eq!(r.readable(), 6);
    assert_eq!(r.pop_slice(4), vec![1, 2, 3, 4]);
    assert_eq!(r.readable(), 2);
}

#[test]
fn pop_wraps_around_the_storage() {
    let mut r = Ring::new(8);
    assert_eq!(r.push_slice(&[1, 2, 3, 4, 5, 6]), 6);
    assert_eq!(r.pop_slice(4), vec![1, 2, 3, 4]);
    // Five more bytes: they wrap around the end of the storage.
    assert_eq!(r.push_slice(&[7, 8, 9, 10, 11]), 5);
    assert_eq!(r.pop_slice(100), vec![5, 6, 7, 8, 9, 10, 11]);
    assert_eq!(r.readable(), 0);
}

#[test]
fn push_is_limited_by_free_space() {
    let mut r = Ring::new(8);
    assert_eq!(r.push_slice(&[0xAB; 20]), 8);
    assert_eq!(r.writable(), 0);
    assert_eq!(r.push_slice(&[0xCD; 3]), 0);
    assert_eq!(r.pop_slice(20), vec![0xAB; 8]);
}

#[test]
fn postponed_pushes_are_invisible_until_sync() {
    let mut r = Ring::new(8);
    assert_eq!(r.push_slice_postponed(&[1, 2, 3]), 3);
    // Staged bytes consume space but are not yet readable.
    assert_eq!(r.readable(), 0);
    assert_eq!(r.writable(), 5);
    assert_eq!(r.pop_slice(3), Vec::<u8>::new());
    // Publication makes all staged bytes visible at once.
    r.sync();
    assert_eq!(r.readable(), 3);
    assert_eq!(r.pop_slice(3), vec![1, 2, 3]);
}

#[test]
fn multiple_postponed_pushes_publish_as_one_step() {
    let mut r = Ring::new(16);
    assert_eq!(r.push_slice_postponed(&[1, 2]), 2);
    assert_eq!(r.push_slice_postponed(&[3, 4, 5]), 3);
    assert_eq!(r.readable(), 0);
    r.sync();
    assert_eq!(r.pop_slice(16), vec![1, 2, 3, 4, 5]);
}
