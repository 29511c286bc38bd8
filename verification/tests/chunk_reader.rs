use futures_combinators::io::read::IntoAsyncRead;
use futures_combinators::poll::Poll;

type Chunks = std::vec::IntoIter<Poll<Option<Result<Vec<u8>, String>>>>;

/// One read into `buf`, as a driver makes it.
fn read(reader: &mut IntoAsyncRead<Chunks>, buf: &mut [u8]) -> Poll<Result<usize, String>> {
    while reader.wants_source() {
        let polled = reader.get_mut().next().unwrap_or(Poll::Ready(None));
        if let Some(outcome) = reader.source_polled(polled) {
            return outcome;
        }
    }
    let served = reader.remainder(buf.len());
    let n = served.len();
    buf[..n].copy_from_slice(served);
    reader.consume(n);
    Poll::Ready(Ok(n))
}

fn chunks(items: Vec<Poll<Option<Result<Vec<u8>, String>>>>) -> Chunks {
    items.into_iter()
}

#[test]
fn reader_serves_the_remainder_before_it_pulls_a_chunk() {
    let mut reader = IntoAsyncRead::new(chunks(vec![
        Poll::Ready(Some(Ok(vec![1, 2, 3]))),
        Poll::Ready(Some(Ok(vec![4, 5]))),
    ]));
    let mut buf = [0u8; 2];
    assert_eq!(read(&mut reader, &mut buf), Poll::Ready(Ok(2)));
    assert_eq!(buf, [1, 2]);
    assert_eq!(reader.get_mut().len(), 1);
    assert!(!reader.wants_source());
    assert_eq!(read(&mut reader, &mut buf), Poll::Ready(Ok(1)));
    assert_eq!(buf[0], 3);
    assert_eq!(reader.get_mut().len(), 1);
    assert!(reader.wants_source());
    assert_eq!(read(&mut reader, &mut buf), Poll::Ready(Ok(2)));
    assert_eq!(buf, [4, 5]);
    assert_eq!(read(&mut reader, &mut buf), Poll::Ready(Ok(0)));
    assert_eq!(read(&mut reader, &mut buf), Poll::Ready(Ok(0)));
    assert!(!reader.wants_source());
}

#[test]
fn reader_skips_empty_chunks_and_passes_suspension_on() {
    let mut reader = IntoAsyncRead::new(chunks(vec![
        Poll::Ready(Some(Ok(vec![]))),
        Poll::Pending,
        Poll::Ready(Some(Ok(vec![]))),
        Poll::Ready(Some(Ok(vec![9]))),
    ]));
    let mut buf = [0u8; 4];
    assert_eq!(read(&mut reader, &mut buf), Poll::Pending);
    assert!(reader.wants_source());
    assert_eq!(read(&mut reader, &mut buf), Poll::Ready(Ok(1)));
    assert_eq!(buf[0], 9);
    assert_eq!(read(&mut reader, &mut buf), Poll::Ready(Ok(0)));
}

#[test]
fn reader_turns_a_stream_error_into_a_read_error_and_then_ends() {
    let mut reader = IntoAsyncRead::new(chunks(vec![
        Poll::Ready(Some(Ok(vec![7]))),
        Poll::Ready(Some(Err("broken".to_string()))),
        Poll::Ready(Some(Ok(vec![8]))),
    ]));
    let mut buf = [0u8; 4];
    assert_eq!(read(&mut reader, &mut buf), Poll::Ready(Ok(1)));
    assert_eq!(read(&mut reader, &mut buf), Poll::Ready(Err("broken".to_string())));
    assert_eq!(read(&mut reader, &mut buf), Poll::Ready(Ok(0)));
    assert_eq!(reader.into_inner().len(), 1);
}

#[test]
fn reader_with_no_room_serves_nothing_and_keeps_the_chunk() {
    let mut reader = IntoAsyncRead::new(chunks(vec![Poll::Ready(Some(Ok(vec![1, 2])))]));
    let mut none = [0u8; 0];
    assert_eq!(read(&mut reader, &mut none), Poll::Ready(Ok(0)));
    assert_eq!(reader.remainder(1), &[1]);
    assert_eq!(reader.remainder(5), &[1, 2]);
    reader.consume(1);
    assert_eq!(reader.remainder(5), &[2]);
    reader.consume(1);
    assert_eq!(reader.remainder(5), &[] as &[u8]);
    assert!(reader.wants_source());
}
