use dbase::SliceUntilTerminator;
use dbase::memo::read_until_terminator;

#[test]
fn memo_test_read_until_terminator() {
    let input = [1, 2, 3, 4, 5, 0x1a, 0x1b];
    let result = read_until_terminator(&input, &[0x1a, 0x1b]);
    let expected = vec![1, 2, 3, 4, 5];
    assert_eq!(expected, result);

    // only the full sequence is accepted
    let input = [1, 2, 3, 4, 5, 0x1a, 6, 7, 0x1a, 0x1b];
    let result = read_until_terminator(&input, &[0x1a, 0x1b]);
    let expected = vec![1, 2, 3, 4, 5, 0x1a, 6, 7];
    assert_eq!(expected, result);

    // if sequence is not found, it is ok I guess
    let input = [1, 2, 3, 4, 5, 0x1a];
    let result = read_until_terminator(&input, &[0x1a, 0x1b]);
    let expected = vec![1, 2, 3, 4, 5, 0x1a];
    assert_eq!(expected, result);
}

#[test]
fn mod_test_read_until_terminator() {
    let input = [1, 2, 3, 4, 5, 0x1a, 0x1b];
    let result = read_until_terminator(&input, &[0x1a, 0x1b]);
    let expected = vec![1, 2, 3, 4, 5];
    assert_eq!(expected, result);

    // only the full sequence is accepted
    let input = [1, 2, 3, 4, 5, 0x1a, 6, 7, 0x1a, 0x1b];
    let result = read_until_terminator(&input, &[0x1a, 0x1b]);
    let expected = vec![1, 2, 3, 4, 5, 0x1a, 6, 7];
    assert_eq!(expected, result);

    // if sequence is not found, it is ok I guess
    let input = [1, 2, 3, 4, 5, 0x1a];
    let result = read_until_terminator(&input, &[0x1a, 0x1b]);
    let expected = vec![1, 2, 3, 4, 5, 0x1a];
    assert_eq!(expected, result);
}

#[test]
fn bounded_scan_returns_prefix_before_delimiter() {
    let data: &[u8] = &[1, 2, 3, 4, 5, 0x1a, 0x1a, 9];
    assert_eq!(&[1, 2, 3, 4, 5], data.until_terminator(&[0x1a, 0x1a]));
}

#[test]
fn bounded_scan_keeps_whole_sequence_without_delimiter() {
    let data: &[u8] = &[1, 2, 3, 4, 5];
    assert_eq!(&[1, 2, 3, 4, 5], data.until_terminator(&[0x1a, 0x1a]));
}

#[test]
fn bounded_scan_retains_partial_match() {
    // a lone first byte of the delimiter, followed by a non-matching byte,
    // must not falsely terminate the scan
    let data: &[u8] = &[1, 0x1a, 2, 3];
    assert_eq!(&[1, 0x1a, 2, 3], data.until_terminator(&[0x1a, 0x1a]));
}

#[test]
fn bounded_scan_trims_nul_padded_name() {
    let data: &[u8] = &[b'N', b'A', b'M', b'E', 0, 0, 0, 0, 0, 0, 0];
    assert_eq!(&[b'N', b'A', b'M', b'E'], data.until_terminator(&[0]));
}

#[test]
fn both_scan_forms_agree_on_single_occurrence() {
    let data: &[u8] = &[7, 8, 0x2c, 0x2d, 9];
    let bounded = data.until_terminator(&[0x2c, 0x2d]).to_vec();
    let streamed = read_until_terminator(data, &[0x2c, 0x2d]);
    assert_eq!(bounded, streamed);
    assert_eq!(vec![7, 8], streamed);
}
