use gio_futures::stream::{FlushPoll, ReadHalf, ReadPoll, WriteHalf, WritePoll};

#[test]
fn reads_resume_across_polls_in_order() {
    let mut r = ReadHalf::new();
    r.deliver(&vec![1, 2, 3, 4, 5]);
    match r.poll_read(2) {
        ReadPoll::Ready(d) => assert_eq!(d, vec![1, 2]),
        ReadPoll::Pending => panic!("bytes were queued"),
    }
    match r.poll_read(10) {
        ReadPoll::Ready(d) => assert_eq!(d, vec![3, 4, 5]),
        ReadPoll::Pending => panic!("bytes were queued"),
    }
    // Drained but still open: pending, not end-of-stream.
    assert!(matches!(r.poll_read(1), ReadPoll::Pending));
}

#[test]
fn read_reports_end_of_stream_after_peer_close() {
    let mut r = ReadHalf::new();
    r.deliver(&vec![7]);
    r.mark_eof();
    match r.poll_read(8) {
        ReadPoll::Ready(d) => assert_eq!(d, vec![7]),
        ReadPoll::Pending => panic!("bytes were queued"),
    }
    match r.poll_read(8) {
        ReadPoll::Ready(d) => assert!(d.is_empty()),
        ReadPoll::Pending => panic!("end-of-stream reads are ready"),
    }
}

#[test]
fn empty_open_read_half_is_pending() {
    let mut r = ReadHalf::new();
    assert!(matches!(r.poll_read(16), ReadPoll::Pending));
}

#[test]
fn writes_follow_the_grant() {
    let mut w = WriteHalf::new();
    assert!(matches!(w.poll_write(&vec![1, 2, 3, 4]), WritePoll::Pending));
    w.set_grant(2);
    match w.poll_write(&vec![1, 2, 3, 4]) {
        WritePoll::Ready(n) => assert_eq!(n, 2),
        WritePoll::Pending => panic!("two bytes were granted"),
    }
    // The grant is used up: the resumed write is pending again.
    assert!(matches!(w.poll_write(&vec![3, 4]), WritePoll::Pending));
    w.set_grant(10);
    match w.poll_write(&vec![3, 4]) {
        WritePoll::Ready(n) => assert_eq!(n, 2),
        WritePoll::Pending => panic!("ten bytes were granted"),
    }
    assert_eq!(w.take_written(), vec![1, 2, 3, 4]);
    assert_eq!(w.take_written(), Vec::<u8>::new());
}

#[test]
fn flush_completes_at_once_and_close_closes() {
    let mut w = WriteHalf::new();
    assert_eq!(w.poll_flush(), FlushPoll::Ready);
    assert_eq!(w.poll_close(), FlushPoll::Ready);
    // Closing twice is harmless.
    assert_eq!(w.poll_close(), FlushPoll::Ready);
}
