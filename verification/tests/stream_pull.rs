use jp2k::stream::Stream;

#[test]
fn pull_hands_out_bytes_in_order() {
    let mut s = Stream::from_bytes(vec![1u8, 2, 3, 4, 5]);
    assert_eq!(s.remaining(), 5);
    assert_eq!(s.pull(3), vec![1u8, 2, 3]);
    assert_eq!(s.remaining(), 2);
    assert_eq!(s.pull(1), vec![4u8]);
    assert_eq!(s.pull(1), vec![5u8]);
    assert_eq!(s.remaining(), 0);
}

#[test]
fn pull_answers_a_large_request_with_what_is_left() {
    let mut s = Stream::from_bytes(vec![9u8, 8, 7]);
    assert_eq!(s.pull(100), vec![9u8, 8, 7]);
    assert_eq!(s.remaining(), 0);
}

#[test]
fn an_exhausted_source_answers_empty_which_signals_end_of_data() {
    let mut s = Stream::from_bytes(vec![1u8]);
    assert_eq!(s.pull(1), vec![1u8]);
    assert_eq!(s.pull(64), Vec::<u8>::new());
    assert_eq!(s.pull(64), Vec::<u8>::new());
}

#[test]
fn a_zero_request_answers_empty_without_consuming() {
    let mut s = Stream::from_bytes(vec![1u8, 2]);
    assert_eq!(s.pull(0), Vec::<u8>::new());
    assert_eq!(s.remaining(), 2);
    assert_eq!(s.pull(2), vec![1u8, 2]);
}

#[test]
fn an_empty_source_is_exhausted_from_the_start() {
    let mut s = Stream::from_bytes(Vec::new());
    assert_eq!(s.remaining(), 0);
    assert_eq!(s.pull(16), Vec::<u8>::new());
}
