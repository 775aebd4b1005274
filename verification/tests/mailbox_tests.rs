use log_relay::chunk::Chunk;
use log_relay::chunk::UART_READ_CHUNK_SIZE;
use log_relay::mailbox::Mailbox;
use log_relay::mailbox::MESSAGE_STREAM_SIZE;

#[test]
fn chunk_keeps_exact_bytes() {
    let c = Chunk::from_bytes(&[1, 2, 3]);
    assert_eq!(c.bytes(), &[1, 2, 3]);
    assert_eq!(c.len(), 3);
}

#[test]
fn chunk_of_empty_read_is_empty() {
    let c = Chunk::from_bytes(&[]);
    assert_eq!(c.len(), 0);
    assert_eq!(c.bytes(), &[] as &[u8]);
}

#[test]
fn chunk_truncates_to_read_size() {
    let data: Vec<u8> = (0..40).collect();
    let c = Chunk::from_bytes(&data);
    assert_eq!(c.len(), UART_READ_CHUNK_SIZE);
    assert_eq!(c.bytes(), &data[..UART_READ_CHUNK_SIZE]);
}

#[test]
fn fifo_order_over_sends_then_receives() {
    let mut m = Mailbox::new();
    for i in 0..16u8 {
        let r = m.send(Chunk::from_bytes(&[i]));
        assert!(r.is_ok());
    }
    for i in 0..16u8 {
        let c = m.receive().expect("a message must be pending");
        assert_eq!(c.bytes(), &[i]);
    }
    assert!(m.receive().is_none());
}

#[test]
fn capacity_is_sixteen_and_extra_send_waits_for_a_receive() {
    let mut m = Mailbox::new();
    for i in 0..MESSAGE_STREAM_SIZE {
        assert!(m.send(Chunk::from_bytes(&[i as u8])).is_ok());
    }
    assert_eq!(m.len(), MESSAGE_STREAM_SIZE);
    assert!(m.is_full());

    // The seventeenth send is rejected and the chunk handed back intact.
    let extra = Chunk::from_bytes(&[99]);
    let back = match m.send(extra) {
        Err(c) => c,
        Ok(()) => panic!("a full mailbox must not accept a message"),
    };
    assert_eq!(back.bytes(), &[99]);
    assert_eq!(m.len(), MESSAGE_STREAM_SIZE);

    // After one receive the same send goes through.
    let first = m.receive().expect("the mailbox is full");
    assert_eq!(first.bytes(), &[0]);
    assert!(m.send(back).is_ok());
    assert_eq!(m.len(), MESSAGE_STREAM_SIZE);

    // Delivery order is still send order.
    for i in 1..MESSAGE_STREAM_SIZE {
        assert_eq!(m.receive().expect("pending").bytes(), &[i as u8]);
    }
    assert_eq!(m.receive().expect("pending").bytes(), &[99]);
    assert!(m.is_empty());
}

#[test]
fn empty_mailbox_delivers_nothing() {
    let mut m = Mailbox::new();
    assert!(m.is_empty());
    assert!(m.receive().is_none());
    assert_eq!(m.len(), 0);
}
