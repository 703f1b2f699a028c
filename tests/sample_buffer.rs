use piccolo::sample_buffer::{AppendError, ReadStep, SampleBuffer, StreamEnd};

fn read(buf: &mut SampleBuffer, n: usize) -> (ReadStep, Vec<i16>) {
    let mut out = Vec::new();
    let step = buf.read_available(&mut out, n);
    (step, out)
}

#[test]
fn chunked_reads_follow_append_order_and_end_with_zero() {
    let mut buf = SampleBuffer::new(10);
    assert_eq!(buf.append_unit(&vec![1, 2, 3, 4]), Ok(()));
    assert_eq!(buf.append_unit(&vec![5, 6, 7, 8]), Ok(()));
    assert_eq!(read(&mut buf, 3), (ReadStep::Complete(3), vec![1, 2, 3]));
    assert_eq!(read(&mut buf, 3), (ReadStep::Complete(3), vec![4, 5, 6]));
    buf.finish();
    assert_eq!(read(&mut buf, 3), (ReadStep::Complete(2), vec![7, 8]));
    assert_eq!(read(&mut buf, 3), (ReadStep::Complete(0), vec![]));
    assert_eq!(read(&mut buf, 3), (ReadStep::Complete(0), vec![]));
}

#[test]
fn short_read_before_end_asks_for_more() {
    let mut buf = SampleBuffer::new(10);
    buf.append_unit(&vec![7, 8]).unwrap();
    assert_eq!(read(&mut buf, 3), (ReadStep::Pending(2), vec![7, 8]));
    assert!(buf.consumer_must_wait());
    assert_eq!(read(&mut buf, 3), (ReadStep::Pending(0), vec![]));
}

#[test]
fn decode_error_drains_then_ends() {
    let mut buf = SampleBuffer::new(100);
    buf.append_unit(&vec![10, 11, 12]).unwrap();
    buf.append_unit(&vec![13, 14]).unwrap();
    buf.fail();
    assert_eq!(buf.end(), StreamEnd::Failed);
    assert!(!buf.consumer_must_wait());
    assert_eq!(read(&mut buf, 4), (ReadStep::Complete(4), vec![10, 11, 12, 13]));
    assert_eq!(read(&mut buf, 4), (ReadStep::Complete(1), vec![14]));
    assert_eq!(read(&mut buf, 4), (ReadStep::Complete(0), vec![]));
    assert!(!buf.consumer_must_wait());
}

#[test]
fn end_is_kept_and_closes_the_buffer() {
    let mut buf = SampleBuffer::new(10);
    buf.finish();
    buf.fail();
    assert_eq!(buf.end(), StreamEnd::Finished);
    assert!(buf.is_ended());
    assert_eq!(buf.append_unit(&vec![1]), Err(AppendError::Closed));
    assert_eq!(buf.len(), 0);
    assert_eq!(read(&mut buf, 5), (ReadStep::Complete(0), vec![]));
}

#[test]
fn producer_waits_at_the_watermark() {
    let mut buf = SampleBuffer::new(4);
    assert!(!buf.producer_must_wait());
    buf.append_unit(&vec![1, 2, 3]).unwrap();
    assert!(!buf.producer_must_wait());
    buf.append_unit(&vec![4, 5, 6]).unwrap();
    assert_eq!(buf.len(), 6);
    assert!(buf.len() <= buf.watermark() + 3);
    assert!(buf.producer_must_wait());
    assert_eq!(buf.append_unit(&vec![7]), Err(AppendError::Full));
    assert_eq!(buf.len(), 6);
    assert_eq!(read(&mut buf, 3), (ReadStep::Complete(3), vec![1, 2, 3]));
    assert!(!buf.producer_must_wait());
    assert_eq!(buf.append_unit(&vec![7]), Ok(()));
    assert_eq!(read(&mut buf, 10), (ReadStep::Pending(4), vec![4, 5, 6, 7]));
}

#[test]
fn appended_data_is_seen_at_once() {
    let mut buf = SampleBuffer::new(10);
    assert!(buf.consumer_must_wait());
    buf.append_unit(&vec![42]).unwrap();
    assert!(!buf.consumer_must_wait());
    assert_eq!(read(&mut buf, 1), (ReadStep::Complete(1), vec![42]));
}

#[test]
fn empty_unit_and_zero_read() {
    let mut buf = SampleBuffer::new(10);
    assert_eq!(buf.append_unit(&vec![]), Ok(()));
    assert!(buf.consumer_must_wait());
    buf.append_unit(&vec![-1, -2]).unwrap();
    assert_eq!(read(&mut buf, 0), (ReadStep::Complete(0), vec![]));
    assert_eq!(buf.len(), 2);
}

#[test]
fn zero_watermark_takes_nothing() {
    let mut buf = SampleBuffer::new(0);
    assert!(buf.producer_must_wait());
    assert_eq!(buf.append_unit(&vec![1]), Err(AppendError::Full));
}
