use rewave::buffer::{read_step, ReadAction, BUFFER};

#[test]
fn buffer_is_eight_kib() {
    assert_eq!(BUFFER, 8192);
}

#[test]
fn failed_read_finishes_with_what_was_gathered() {
    let mut data = vec![1, 2];
    assert_eq!(read_step(&mut data, None), ReadAction::Finish);
    assert_eq!(data, vec![1, 2]);
}

#[test]
fn empty_read_shuts_down() {
    let mut data = vec![7];
    assert_eq!(read_step(&mut data, Some(&[])), ReadAction::Shutdown);
    assert_eq!(data, vec![7]);
}

#[test]
fn short_read_finishes() {
    let mut data = Vec::new();
    assert_eq!(read_step(&mut data, Some(&[4, 5, 6])), ReadAction::Finish);
    assert_eq!(data, vec![4, 5, 6]);
}

#[test]
fn full_read_continues() {
    let mut data = Vec::new();
    let full = vec![3u8; BUFFER];
    assert_eq!(read_step(&mut data, Some(&full)), ReadAction::Continue);
    assert_eq!(data.len(), BUFFER);
    let one_short = vec![3u8; BUFFER - 1];
    let mut other = Vec::new();
    assert_eq!(read_step(&mut other, Some(&one_short)), ReadAction::Finish);
}

#[test]
fn reads_gather_in_order() {
    let mut data = Vec::new();
    let first: Vec<u8> = (0..BUFFER).map(|i| (i % 251) as u8).collect();
    assert_eq!(read_step(&mut data, Some(&first)), ReadAction::Continue);
    assert_eq!(read_step(&mut data, Some(&[200, 201])), ReadAction::Finish);
    let mut expected = first.clone();
    expected.extend_from_slice(&[200, 201]);
    assert_eq!(data, expected);
}

#[test]
fn full_reads_then_failed_read_keep_all_bytes() {
    let mut data = Vec::new();
    let a = vec![1u8; BUFFER];
    let b = vec![2u8; BUFFER];
    assert_eq!(read_step(&mut data, Some(&a)), ReadAction::Continue);
    assert_eq!(read_step(&mut data, Some(&b)), ReadAction::Continue);
    assert_eq!(read_step(&mut data, None), ReadAction::Finish);
    let mut expected = a.clone();
    expected.extend_from_slice(&b);
    assert_eq!(data, expected);
}

#[test]
fn full_read_then_empty_read_shuts_down() {
    let mut data = Vec::new();
    let a = vec![9u8; BUFFER];
    assert_eq!(read_step(&mut data, Some(&a)), ReadAction::Continue);
    assert_eq!(read_step(&mut data, Some(&[])), ReadAction::Shutdown);
    assert_eq!(data, a);
}
