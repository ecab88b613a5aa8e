use tokio_bincode::Reader;

#[test]
fn fresh_reader_has_consumed_nothing() {
    let data: [u8; 4] = [10, 20, 30, 40];
    let reader = Reader::new(&data);
    assert_eq!(reader.amount(), 0);
}

#[test]
fn read_returns_requested_prefix_and_counts_it() {
    let data: [u8; 5] = [1, 2, 3, 4, 5];
    let mut reader = Reader::new(&data);
    let first = reader.read(3);
    assert_eq!(first, vec![1, 2, 3]);
    assert_eq!(reader.amount(), 3);
    assert_eq!(reader.rest(), &[4, 5]);
}

#[test]
fn read_past_end_yields_what_is_there() {
    let data: [u8; 5] = [1, 2, 3, 4, 5];
    let mut reader = Reader::new(&data);
    let first = reader.read(3);
    assert_eq!(first, vec![1, 2, 3]);
    let second = reader.read(10);
    assert_eq!(second, vec![4, 5]);
    assert_eq!(reader.amount(), 5);
}

#[test]
fn read_at_end_is_empty_not_blocking() {
    let data: [u8; 2] = [9, 9];
    let mut reader = Reader::new(&data);
    let all = reader.read(2);
    assert_eq!(all, vec![9, 9]);
    let nothing = reader.read(4);
    assert_eq!(nothing, Vec::<u8>::new());
    assert_eq!(reader.amount(), 2);
}

#[test]
fn read_zero_consumes_nothing() {
    let data: [u8; 3] = [7, 8, 9];
    let mut reader = Reader::new(&data);
    let none = reader.read(0);
    assert_eq!(none, Vec::<u8>::new());
    assert_eq!(reader.amount(), 0);
    assert_eq!(reader.rest(), &[7, 8, 9]);
}

#[test]
fn reader_over_empty_slice() {
    let data: [u8; 0] = [];
    let mut reader = Reader::new(&data);
    let nothing = reader.read(1);
    assert_eq!(nothing, Vec::<u8>::new());
    assert_eq!(reader.amount(), 0);
}
