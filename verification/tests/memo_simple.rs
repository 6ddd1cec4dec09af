use dbase::errors::Error;
use dbase::memo::simple::MemoReader;

#[test]
fn memo_test_simple_dbt_header() {
    let mut file = [0u8; 512];
    // first block is 1 (little endian)
    file[0] = 1;
    // version is at position 16
    file[16] = 3;
    let reader = MemoReader::from_reader(file.to_vec()).unwrap();

    // by default block is 512 and version is 03h
    assert_eq!(512, reader.header.block_size);
    assert_eq!(3, reader.header.version);
    // next block is 1, 0 is header
    assert_eq!(1, reader.header.next_block);
}

#[test]
fn memo_test_extract_text_from_block() {
    let mut file = [0u8; 1024];
    file[0] = 2;
    file[16] = 3;
    // block 1 contains 'Hola'
    file[512] = 72;
    file[513] = 111;
    file[514] = 108;
    file[515] = 97;
    file[516] = 0x1a;
    file[517] = 0x1a;

    let reader = MemoReader::from_reader(file.to_vec()).unwrap();
    let content: String = reader.read_memo(1).unwrap();

    assert_eq!("Hola", &content);
}

#[test]
fn simple_reader_needs_seventeen_header_bytes() {
    let r = MemoReader::from_reader(vec![0u8; 16]);
    assert_eq!(Err(Error::UnexpectedEof), r.map(|_| ()));
}

#[test]
fn simple_read_past_end_yields_empty_payload() {
    let mut file = vec![0u8; 512];
    file[0] = 1;
    let reader = MemoReader::from_reader(file).unwrap();
    let content: Vec<u8> = reader.read_memo(7).unwrap();
    assert_eq!(Vec::<u8>::new(), content);
}
