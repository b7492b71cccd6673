use seedshotter::tail::ReadPlan;
use seedshotter::tail::TailError;
use seedshotter::tail::TailReader;

#[test]
fn reader_starts_at_the_end_of_the_file() {
    let reader = TailReader::open(120);
    assert_eq!(reader.offset(), 120);
    assert_eq!(reader.observed_len(), 120);
}

#[test]
fn unchanged_length_is_idle() {
    let mut reader = TailReader::open(120);
    assert_eq!(reader.poll_new_lines(120), ReadPlan::Idle);
    assert_eq!(reader.offset(), 120);
}

#[test]
fn growth_asks_for_the_new_span() {
    let mut reader = TailReader::open(120);
    assert_eq!(reader.poll_new_lines(133), ReadPlan::Read { from: 120, to: 133 });
    assert_eq!(reader.offset(), 120);
    assert_eq!(reader.observed_len(), 133);
}

#[test]
fn offset_moves_only_when_the_span_is_handed_back() {
    let mut reader = TailReader::open(0);
    assert_eq!(reader.poll_new_lines(8), ReadPlan::Read { from: 0, to: 8 });
    assert_eq!(reader.offset(), 0);
    let lines = reader.take_new_lines(b"foo\nbar\n").unwrap();
    assert_eq!(lines, vec![b"foo".to_vec(), b"bar".to_vec()]);
    assert_eq!(reader.offset(), 8);
    assert_eq!(reader.poll_new_lines(8), ReadPlan::Idle);
}

#[test]
fn failed_read_leaves_the_offset_for_the_next_poll() {
    let mut reader = TailReader::open(10);
    assert_eq!(reader.poll_new_lines(14), ReadPlan::Read { from: 10, to: 14 });
    // the read failed: nothing is handed back
    assert_eq!(reader.poll_new_lines(20), ReadPlan::Read { from: 10, to: 20 });
    assert_eq!(reader.offset(), 10);
}

#[test]
fn truncation_moves_the_offset_to_the_new_end() {
    let mut reader = TailReader::open(120);
    assert_eq!(reader.poll_new_lines(30), ReadPlan::Truncated);
    assert_eq!(reader.offset(), 30);
    assert_eq!(reader.poll_new_lines(30), ReadPlan::Idle);
    assert_eq!(reader.poll_new_lines(0), ReadPlan::Truncated);
    assert_eq!(reader.offset(), 0);
}

#[test]
fn span_of_the_wrong_length_is_refused() {
    let mut reader = TailReader::open(10);
    assert_eq!(reader.poll_new_lines(14), ReadPlan::Read { from: 10, to: 14 });
    assert_eq!(reader.take_new_lines(b"abc"), Err(TailError::SpanMismatch));
    assert_eq!(reader.take_new_lines(b"abcde"), Err(TailError::SpanMismatch));
    assert_eq!(reader.offset(), 10);
    assert_eq!(reader.observed_len(), 14);
    assert_eq!(reader.take_new_lines(b"abc\n"), Ok(vec![b"abc".to_vec()]));
    assert_eq!(reader.offset(), 14);
}

#[test]
fn bytes_without_a_pending_span_are_refused() {
    let mut reader = TailReader::open(10);
    assert_eq!(reader.take_new_lines(b"abc\n"), Err(TailError::SpanMismatch));
    assert_eq!(reader.offset(), 10);
}

#[test]
fn empty_span_is_accepted_when_nothing_is_pending() {
    let mut reader = TailReader::open(10);
    assert_eq!(reader.take_new_lines(b""), Ok(Vec::<Vec<u8>>::new()));
    assert_eq!(reader.offset(), 10);
}

#[test]
fn offset_never_passes_the_reported_length() {
    let lengths: [u64; 9] = [5, 5, 9, 2, 2, 40, 0, 7, u64::MAX];
    let mut reader = TailReader::open(5);
    let mut previous = reader.offset();
    for length in lengths {
        let plan = reader.poll_new_lines(length);
        assert!(reader.offset() <= length);
        if length >= previous {
            assert_eq!(reader.offset(), previous);
        } else {
            assert_eq!(plan, ReadPlan::Truncated);
            assert_eq!(reader.offset(), length);
        }
        if let ReadPlan::Read { from, to } = plan {
            assert_eq!(from, previous);
            assert_eq!(to, length);
            if to - from < 1000 {
                let data = vec![b'x'; (to - from) as usize];
                assert!(reader.take_new_lines(&data).is_ok());
                assert_eq!(reader.offset(), length);
            }
        }
        assert!(reader.offset() <= reader.observed_len());
        previous = reader.offset();
    }
}
