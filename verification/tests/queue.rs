use usbd_gs::{
    Bridge, CanFrame, CanId, FrameQueue, HostCanId, HostFrame, HostFrameFlags, QUEUE_DEPTH,
    RENEWAL_PERIOD,
};

fn numbered(number: u32) -> HostFrame {
    let mut bytes = [0u8; 64];
    bytes[0] = number as u8;
    bytes[63] = (number >> 8) as u8;
    HostFrame::new(Some(number), HostCanId(number & 0x7FF), 1, 0, HostFrameFlags(0), bytes)
}

#[test]
fn new_queue_holds_nothing() {
    let mut queue = FrameQueue::new();
    assert_eq!(queue.len(), 0);
    assert_eq!(queue.peek(), None);
    assert_eq!(queue.pop(), None);
    assert_eq!(queue.len(), 0);
}

#[test]
fn queue_hands_its_frames_out_in_the_order_in_which_they_came() {
    let mut queue = FrameQueue::new();
    for number in 0..5 {
        queue.push(numbered(number));
        assert_eq!(queue.len(), number as usize + 1);
        assert_eq!(queue.peek(), Some(&numbered(0)));
    }
    for number in 0..5 {
        assert_eq!(queue.peek(), Some(&numbered(number)));
        assert_eq!(queue.pop(), Some(numbered(number)));
        assert_eq!(queue.len(), 4 - number as usize);
    }
    assert_eq!(queue.pop(), None);
}

#[test]
fn full_queue_makes_room_by_letting_its_oldest_frame_go() {
    let mut queue = FrameQueue::new();
    for number in 0..8 {
        queue.push(numbered(number));
    }
    assert_eq!(queue.len(), QUEUE_DEPTH);
    assert_eq!(queue.peek(), Some(&numbered(0)));
    queue.push(numbered(8));
    assert_eq!(queue.len(), QUEUE_DEPTH);
    queue.push(numbered(9));
    assert_eq!(queue.len(), QUEUE_DEPTH);
    for number in 2..10 {
        assert_eq!(queue.pop(), Some(numbered(number)));
    }
    assert_eq!(queue.pop(), None);
}

#[test]
fn queue_keeps_its_order_over_more_writes_than_one_ring_buffer_takes() {
    for held in 0..=QUEUE_DEPTH as u32 {
        let mut queue = FrameQueue::new();
        let total = 3 * RENEWAL_PERIOD as u32 + 11;
        let mut oldest: u32 = 0;
        for number in 0..total {
            queue.push(numbered(number));
            if number - oldest >= held.max(1) && held < QUEUE_DEPTH as u32 {
                assert_eq!(queue.pop(), Some(numbered(oldest)));
                oldest += 1;
            } else if number - oldest >= QUEUE_DEPTH as u32 {
                oldest += 1;
            }
            assert_eq!(queue.len(), (number + 1 - oldest) as usize);
            assert_eq!(queue.peek(), Some(&numbered(oldest)));
        }
        while oldest < total {
            assert_eq!(queue.pop(), Some(numbered(oldest)));
            oldest += 1;
        }
        assert_eq!(queue.pop(), None);
    }
}

#[test]
fn bridge_takes_more_frames_than_one_ring_buffer_takes() {
    let mut bridge = Bridge::new();
    let total = 2 * RENEWAL_PERIOD as u32 + 3;
    for number in 0..total {
        let data = [number as u8, (number >> 8) as u8, (number >> 16) as u8];
        let frame = CanFrame::new(CanId::extended(number).unwrap(), &data).unwrap();
        bridge.frame_received(&frame, 0);
        let oldest = if number < 8 { 0 } else { number - 7 };
        assert_eq!(bridge.inbox_len(), (number + 1 - oldest) as usize);
        assert_eq!(bridge.peek_inbox().unwrap().can_id, HostCanId(0x8000_0000 | oldest));
    }
}
