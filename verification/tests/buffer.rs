use postgrestd::readbuf::BorrowedBuf;

#[test]
fn fresh_buffer_from_empty_storage_is_all_zero() {
    let buf = BorrowedBuf::from_vec(Vec::new());
    assert_eq!(buf.capacity(), 0);
    assert_eq!(buf.len(), 0);
    assert_eq!(buf.init_len(), 0);
}

#[test]
fn fresh_uninitialized_buffer_tracks_nothing() {
    let buf = BorrowedBuf::with_capacity(16);
    assert_eq!(buf.capacity(), 16);
    assert_eq!(buf.len(), 0);
    assert_eq!(buf.init_len(), 0);
}

#[test]
fn initialized_storage_starts_with_full_init_watermark() {
    let buf = BorrowedBuf::from_vec(vec![9, 8, 7]);
    assert_eq!(buf.capacity(), 3);
    assert_eq!(buf.len(), 0);
    assert_eq!(buf.init_len(), 3);
}

#[test]
fn ensure_init_marks_whole_capacity_and_keeps_filled_bytes() {
    let buf = BorrowedBuf::with_capacity(8);
    let mut cursor = buf.unfilled();
    cursor.append(&[1, 2, 3]);
    cursor.ensure_init();
    let buf = cursor.into_buf();
    assert_eq!(buf.init_len(), 8);
    assert_eq!(buf.len(), 3);
    assert_eq!(buf.filled(), &[1, 2, 3]);
}

#[test]
fn advance_grows_filled_and_init_never_lags() {
    let buf = BorrowedBuf::with_capacity(8);
    let mut cursor = buf.unfilled();
    cursor.ensure_init();
    cursor.advance(5);
    assert_eq!(cursor.written(), 5);
    let buf = cursor.into_buf();
    assert_eq!(buf.len(), 5);
    assert!(buf.init_len() >= buf.len());
    assert_eq!(buf.init_len(), 8);
}

#[test]
fn advance_beyond_init_raises_the_watermark() {
    let buf = BorrowedBuf::with_capacity(4);
    let mut cursor = buf.unfilled();
    cursor.advance(2);
    let buf = cursor.into_buf();
    assert_eq!(buf.len(), 2);
    assert_eq!(buf.init_len(), 2);
}

#[test]
fn clear_resets_filled_but_never_the_watermark() {
    let buf = BorrowedBuf::with_capacity(8);
    let mut cursor = buf.unfilled();
    cursor.append(&[1, 2, 3, 4]);
    let mut buf = cursor.into_buf();
    assert_eq!(buf.len(), 4);
    buf.clear();
    assert_eq!(buf.len(), 0);
    assert_eq!(buf.init_len(), 4);
    assert_eq!(buf.capacity(), 8);
}

#[test]
fn set_init_never_moves_backwards() {
    let mut buf = BorrowedBuf::with_capacity(8);
    buf.set_init(5);
    assert_eq!(buf.init_len(), 5);
    buf.set_init(2);
    assert_eq!(buf.init_len(), 5);
    buf.set_init(7);
    assert_eq!(buf.init_len(), 7);
}

#[test]
fn append_writes_wholesale_and_advances() {
    let buf = BorrowedBuf::with_capacity(8);
    let mut cursor = buf.unfilled();
    assert_eq!(cursor.capacity(), 8);
    cursor.append(&[10, 20]);
    assert_eq!(cursor.written(), 2);
    assert_eq!(cursor.capacity(), 6);
    cursor.append(&[30]);
    let buf = cursor.into_buf();
    assert_eq!(buf.filled(), &[10, 20, 30]);
    assert_eq!(buf.init_len(), 3);
}

#[test]
fn try_append_refuses_oversized_input_and_changes_nothing() {
    let buf = BorrowedBuf::with_capacity(4);
    let mut cursor = buf.unfilled();
    cursor.append(&[1, 2]);
    assert!(!cursor.try_append(&[3, 4, 5]));
    assert_eq!(cursor.written(), 2);
    assert_eq!(cursor.capacity(), 2);
    assert!(cursor.try_append(&[3, 4]));
    let buf = cursor.into_buf();
    assert_eq!(buf.filled(), &[1, 2, 3, 4]);
}

#[test]
fn try_append_accepts_an_exact_fit() {
    let buf = BorrowedBuf::with_capacity(3);
    let mut cursor = buf.unfilled();
    assert!(cursor.try_append(&[7, 8, 9]));
    assert_eq!(cursor.capacity(), 0);
    assert!(!cursor.try_append(&[1]));
    assert_eq!(cursor.into_buf().filled(), &[7, 8, 9]);
}
