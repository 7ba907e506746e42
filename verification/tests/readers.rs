use rustole::utils::{expand_tilde, reader_step, ReadOutcome, ReaderStep, CHUNK_SIZE};

#[test]
fn chunk_size() {
    assert_eq!(CHUNK_SIZE, 4096);
}

#[test]
fn bytes_read_are_delivered() {
    let mut buffer = vec![0u8; CHUNK_SIZE];
    buffer[..5].copy_from_slice(b"hello");
    match reader_step(&buffer, ReadOutcome::Read(5)) {
        ReaderStep::Deliver(event) => {
            assert_eq!(event.buffer, b"hello".to_vec());
            assert_eq!(event.number_of_elements_in_buffer, 5);
        }
        other => panic!("{:?}", other),
    }
}

#[test]
fn a_full_buffer_is_delivered_whole() {
    let buffer: Vec<u8> = (0..CHUNK_SIZE).map(|i| (i % 251) as u8).collect();
    match reader_step(&buffer, ReadOutcome::Read(CHUNK_SIZE)) {
        ReaderStep::Deliver(event) => {
            assert_eq!(event.buffer, buffer);
            assert_eq!(event.number_of_elements_in_buffer, CHUNK_SIZE);
        }
        other => panic!("{:?}", other),
    }
}

#[test]
fn an_empty_read_ends_the_process() {
    let buffer = vec![7u8; 16];
    assert!(matches!(reader_step(&buffer, ReadOutcome::Read(0)), ReaderStep::Terminate));
    assert!(matches!(reader_step(&[], ReadOutcome::Read(0)), ReaderStep::Terminate));
}

#[test]
fn a_closed_channel_ends_the_process() {
    let buffer = vec![7u8; 16];
    assert!(matches!(reader_step(&buffer, ReadOutcome::Closed), ReaderStep::Terminate));
}

#[test]
fn another_failure_is_passed_over() {
    let buffer = vec![7u8; 16];
    assert!(matches!(reader_step(&buffer, ReadOutcome::Failed), ReaderStep::Continue));
}

#[test]
fn deliveries_keep_their_order() {
    let chunks: [&[u8]; 4] = [b"one", b"two", b"three", b"four"];
    let mut delivered = Vec::new();
    for chunk in chunks {
        let mut buffer = vec![0u8; 8];
        buffer[..chunk.len()].copy_from_slice(chunk);
        if let ReaderStep::Deliver(event) = reader_step(&buffer, ReadOutcome::Read(chunk.len())) {
            delivered.push(event.buffer);
        }
    }
    let expected: Vec<Vec<u8>> = chunks.iter().map(|chunk| chunk.to_vec()).collect();
    assert_eq!(delivered, expected);
}

#[test]
fn tilde_is_replaced_by_home() {
    assert_eq!(
        expand_tilde("~/.config/rustole/rustole.toml", "/home/ada"),
        "/home/ada/.config/rustole/rustole.toml"
    );
    assert_eq!(expand_tilde("~", "/root"), "/root");
    assert_eq!(expand_tilde("~other", "/home/ada"), "/home/adaother");
    assert_eq!(expand_tilde("~/é", "/home/zoë"), "/home/zoë/é");
}

#[test]
fn a_path_without_tilde_stays() {
    assert_eq!(expand_tilde("/etc/passwd", "/home/ada"), "/etc/passwd");
    assert_eq!(expand_tilde("a/~/b", "/home/ada"), "a/~/b");
    assert_eq!(expand_tilde("", "/home/ada"), "");
}
