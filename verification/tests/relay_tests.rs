use log_relay::mailbox::MESSAGE_STREAM_SIZE;
use log_relay::relay::Relay;

#[test]
fn uart_chunks_reach_socket_in_order() {
    // Three reads of "AB", "CD", "EF" must come out as exactly three
    // writes, in that order, concatenating to "ABCDEF".
    let mut relay = Relay::new();
    assert!(relay.on_read(Some(b"AB".as_slice())));
    assert!(relay.on_read(Some(b"CD".as_slice())));
    assert!(relay.on_read(Some(b"EF".as_slice())));

    let mut writes: Vec<Vec<u8>> = Vec::new();
    while let Some(c) = relay.next_chunk() {
        writes.push(c.bytes().to_vec());
    }
    assert_eq!(writes.len(), 3);
    assert_eq!(writes[0], b"AB");
    assert_eq!(writes[1], b"CD");
    assert_eq!(writes[2], b"EF");

    let all: Vec<u8> = writes.concat();
    assert_eq!(all, b"ABCDEF");
}

#[test]
fn failed_reads_are_skipped_without_output() {
    let mut relay = Relay::new();
    assert!(!relay.on_read(None));
    assert!(relay.on_read(Some(b"XY".as_slice())));
    assert!(!relay.on_read(None));

    let first = relay.next_chunk().expect("one chunk was accepted");
    assert_eq!(first.bytes(), b"XY");
    assert!(relay.next_chunk().is_none());
}

#[test]
fn backpressure_blocks_producer_and_loses_nothing() {
    let mut relay = Relay::new();
    // Fill the mailbox, then one more read: the producer must block on it.
    for i in 0..MESSAGE_STREAM_SIZE {
        assert!(relay.on_read(Some([i as u8].as_slice())));
    }
    assert!(!relay.on_read(Some([16u8].as_slice())));

    // While the mailbox stays full, retrying does not help.
    assert!(!relay.retry_send());

    // One consume frees a slot; the held chunk then goes through.
    let first = relay.next_chunk().expect("the mailbox is full");
    assert_eq!(first.bytes(), &[0]);
    assert!(relay.retry_send());

    // Every message arrives exactly once, in send order.
    for i in 1..=MESSAGE_STREAM_SIZE {
        let c = relay.next_chunk().expect("pending");
        assert_eq!(c.bytes(), &[i as u8]);
    }
    assert!(relay.next_chunk().is_none());
}

#[test]
fn interleaved_sends_and_receives_preserve_order() {
    let mut relay = Relay::new();
    let mut expected: Vec<u8> = Vec::new();
    let mut got: Vec<u8> = Vec::new();
    for round in 0..10u8 {
        assert!(relay.on_read(Some([2 * round].as_slice())));
        assert!(relay.on_read(Some([2 * round + 1].as_slice())));
        expected.push(2 * round);
        expected.push(2 * round + 1);
        let c = relay.next_chunk().expect("pending");
        got.extend_from_slice(c.bytes());
    }
    while let Some(c) = relay.next_chunk() {
        got.extend_from_slice(c.bytes());
    }
    assert_eq!(got, expected);
}
