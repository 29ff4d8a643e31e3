use lan_play::channel::ChannelPort;
use lan_play::channel::TryRecvError;
use lan_play::device::RawsockDevice;
use lan_play::device::MAX_FRAME_SIZE;

#[test]
fn rx_token_hands_over_the_captured_frame() {
    let mut port = ChannelPort::new();
    assert_eq!(port.push_captured(vec![0xaa, 0xbb, 0xcc]), Ok(()));
    let mut device = RawsockDevice::new(port);
    let (rx, _tx) = device.receive().expect("a frame was queued");
    let seen = rx.consume(|frame| frame);
    assert_eq!(seen, vec![0xaa, 0xbb, 0xcc]);
    // The frame was delivered exactly once.
    assert!(device.receive().is_none());
}

#[test]
fn tx_token_commits_exactly_the_filled_frame() {
    let mut device = RawsockDevice::new(ChannelPort::new());
    let tx = device.transmit().expect("a transmit token is always granted");
    let echoed = tx.consume(5, &mut device.port, |mut buffer| {
        // The filler gets a zeroed buffer of exactly the requested length.
        assert_eq!(buffer, vec![0u8; 5]);
        buffer.copy_from_slice(b"hello");
        (buffer, 42u32)
    });
    assert_eq!(echoed, 42);
    // The capture side observes a frame of exactly that length and content.
    assert_eq!(device.port.pop_outgoing(), Ok(b"hello".to_vec()));
    assert_eq!(device.port.pop_outgoing(), Err(TryRecvError::Empty));
}

#[test]
fn dropped_token_produces_no_frame() {
    let mut device = RawsockDevice::new(ChannelPort::new());
    {
        let _unused = device.transmit().expect("a transmit token is always granted");
        // Dropped without being consumed: implicit cancellation.
    }
    assert_eq!(device.port.pop_outgoing(), Err(TryRecvError::Empty));
}

#[test]
fn commit_after_teardown_drops_the_frame_quietly() {
    let mut device = RawsockDevice::new(ChannelPort::new());
    device.port.close();
    let tx = device.transmit().expect("a transmit token is always granted");
    let result = tx.consume(2, &mut device.port, |buffer| (buffer, "done"));
    // The filler's result still comes back; the frame is dropped, not queued.
    assert_eq!(result, "done");
    assert_eq!(device.port.pop_outgoing(), Err(TryRecvError::Closed));
}

#[test]
fn receive_reports_exhaustion_after_close() {
    let mut port = ChannelPort::new();
    assert_eq!(port.push_captured(vec![1u8]), Ok(()));
    let mut device = RawsockDevice::new(port);
    device.port.close();
    // The pending frame drains first; after that, exhaustion, not a panic or
    // a block.
    assert!(device.receive().is_some());
    assert!(device.receive().is_none());
    assert!(device.receive().is_none());
}

#[test]
fn reply_within_one_tick() {
    let mut port = ChannelPort::new();
    assert_eq!(port.push_captured(vec![9u8, 9]), Ok(()));
    let mut device = RawsockDevice::new(port);
    let (rx, tx) = device.receive().expect("a frame was queued");
    let request = rx.consume(|frame| frame);
    let reply: Vec<u8> = request.iter().rev().copied().collect();
    tx.consume(reply.len(), &mut device.port, move |mut buffer| {
        buffer.copy_from_slice(&reply);
        (buffer, ())
    });
    assert_eq!(device.port.pop_outgoing(), Ok(vec![9u8, 9]));
}

#[test]
fn capabilities_declare_fixed_mtu_and_single_burst() {
    let device = RawsockDevice::new(ChannelPort::new());
    let caps = device.capabilities();
    assert_eq!(caps.max_transmission_unit, 1536);
    assert_eq!(caps.max_transmission_unit, MAX_FRAME_SIZE);
    assert_eq!(caps.max_burst_size, Some(1));
}
