use futures_combinators::io::write::{AsyncWriteTestExt, InterleavePending, Limited};

#[test]
fn limited_offers_at_most_its_limit() {
    let limited = Limited::new(Vec::<u8>::new(), 2);
    assert_eq!(limited.offered(&[1, 2]), &[1, 2]);
    assert_eq!(limited.offered(&[3]), &[3]);
    assert_eq!(limited.offered(&[4, 5, 6]), &[4, 5]);
    assert_eq!(limited.offered(&[]), &[] as &[u8]);
    let nothing = Limited::new((), 0);
    assert_eq!(nothing.offered(&[1, 2, 3]), &[] as &[u8]);
}

#[test]
fn limited_write_fills_a_buffer_piece_by_piece() {
    let mut writer = vec![0u8; 0].limited_write(2);
    let data = [1u8, 2, 3, 4, 5];
    let mut written = 0;
    let mut calls = 0;
    while written < data.len() {
        let piece = writer.offered(&data[written..]).to_vec();
        assert!(piece.len() <= 2);
        writer.get_mut().extend_from_slice(&piece);
        written += piece.len();
        calls += 1;
    }
    assert_eq!(calls, 3);
    assert_eq!(writer.get_ref(), &vec![1, 2, 3, 4, 5]);
    assert_eq!(writer.into_inner(), vec![1, 2, 3, 4, 5]);
}

#[test]
fn interleave_pending_suspends_once_before_every_operation() {
    let mut writer = InterleavePending::new(Vec::<u8>::new());
    assert!(!writer.begin_poll());
    assert!(writer.begin_poll());
    writer.get_mut().push(1);
    writer.end_poll(true);
    assert!(!writer.begin_poll());
    assert!(writer.begin_poll());
    writer.end_poll(false);
    assert!(writer.begin_poll());
    writer.get_mut().push(2);
    writer.end_poll(true);
    assert!(!writer.begin_poll());
    assert_eq!(writer.get_ref(), &vec![1, 2]);
    assert_eq!(writer.into_inner(), vec![1, 2]);
}

#[test]
fn interleave_pending_write_wraps_the_writer() {
    let mut writer = vec![7u8].interleave_pending_write();
    assert_eq!(writer.get_ref(), &vec![7]);
    assert!(!writer.begin_poll());
    assert!(writer.begin_poll());
}
