use codeplug::handshake::Handshake;

#[test]
fn commands_in_order() {
    let mut handshake = Handshake::new();
    let mut sent = vec![];
    while !handshake.is_connected() {
        sent.push((handshake.command(), handshake.reply_length()));
        let reply = vec![0x06; handshake.reply_length()];
        handshake.receive(Some(&reply));
    }
    assert_eq!(
        sent,
        vec![
            (vec![0x02, 0x4d, 0x35, 0x39, 0x47, 0x52, 0x41, 0x4d], 1),
            (vec![0x02], 7),
            (vec![0x06], 1),
            (vec![0x05], 3),
            (vec![0x06], 1),
        ]
    );
}

#[test]
fn step_moves_on_after_four_failed_reads() {
    let mut handshake = Handshake::new();
    for _ in 0..3 {
        handshake.receive(None);
        assert_eq!(handshake.command(), vec![0x02, 0x4d, 0x35, 0x39, 0x47, 0x52, 0x41, 0x4d]);
    }
    handshake.receive(None);
    assert_eq!(handshake.command(), vec![0x02]);
    // The next step starts with all retries.
    for _ in 0..3 {
        handshake.receive(None);
        assert_eq!(handshake.command(), vec![0x02]);
    }
}

#[test]
fn refused_reply_repeats_the_step() {
    let mut handshake = Handshake::new();
    for _ in 0..10 {
        handshake.receive(Some(&[0x15]));
        assert_eq!(handshake.reply_length(), 1);
        assert_eq!(handshake.command().len(), 8);
    }
    handshake.receive(Some(&[0x06]));
    assert_eq!(handshake.command(), vec![0x02]);
}

#[test]
fn any_reply_ends_step_three() {
    let mut handshake = Handshake::new();
    handshake.receive(Some(&[0x06]));
    handshake.receive(Some(&[0x06, 0, 0, 0, 0, 0, 0]));
    handshake.receive(Some(&[0x06]));
    assert_eq!(handshake.command(), vec![0x05]);
    handshake.receive(Some(&[0x00, 0x00, 0x00]));
    assert_eq!(handshake.command(), vec![0x06]);
    assert!(!handshake.is_connected());
    handshake.receive(Some(&[0x06]));
    assert!(handshake.is_connected());
}
