use p2p_upgrade::connection::CloseProgress;
use p2p_upgrade::connection::Connection;
use p2p_upgrade::connection::Error;
use p2p_upgrade::connection::Poll;
use p2p_upgrade::connection::MAX_DATA_CHANNELS_IN_FLIGHT;

fn deliver(conn: &mut Connection<u32>) -> u32 {
    match conn.poll_inbound() {
        Poll::Ready(Ok(substream)) => substream.channel,
        other => panic!("expected a substream, got {:?}", other),
    }
}

#[test]
fn fresh_connection_has_nothing_inbound() {
    let mut conn: Connection<u32> = Connection::new();
    assert_eq!(conn.poll_inbound(), Poll::Pending);
}

#[test]
fn inbound_channels_are_delivered_in_order() {
    let mut conn: Connection<u32> = Connection::new();
    assert!(conn.on_incoming_data_channel(1));
    assert!(conn.on_incoming_data_channel(2));
    assert!(conn.on_incoming_data_channel(3));
    assert_eq!(deliver(&mut conn), 1);
    assert_eq!(deliver(&mut conn), 2);
    assert_eq!(deliver(&mut conn), 3);
    assert_eq!(conn.poll_inbound(), Poll::Pending);
}

#[test]
fn queue_capacity_is_ten() {
    assert_eq!(MAX_DATA_CHANNELS_IN_FLIGHT, 10);
    let mut conn: Connection<u32> = Connection::new();
    let mut accepted: u32 = 0;
    let mut refused: u32 = 0;
    for channel in 0..12u32 {
        if conn.on_incoming_data_channel(channel) {
            accepted += 1;
        } else {
            refused += 1;
        }
    }
    assert_eq!(accepted, 10);
    assert_eq!(refused, 2);
    for expected in 0..10u32 {
        assert_eq!(deliver(&mut conn), expected);
    }
    assert_eq!(conn.poll_inbound(), Poll::Pending);
}

#[test]
fn draining_makes_room_again() {
    let mut conn: Connection<u32> = Connection::new();
    for channel in 0..10u32 {
        assert!(conn.on_incoming_data_channel(channel));
    }
    assert!(!conn.on_incoming_data_channel(10));
    assert_eq!(deliver(&mut conn), 0);
    assert!(conn.on_incoming_data_channel(10));
}

#[test]
fn read_buf_capacity_applies_to_later_substreams() {
    let mut conn: Connection<u32> = Connection::new();
    assert!(conn.on_incoming_data_channel(1));
    match conn.poll_inbound() {
        Poll::Ready(Ok(s)) => assert_eq!(s.read_buf_capacity, None),
        other => panic!("expected a substream, got {:?}", other),
    }
    conn.set_data_channels_read_buf_capacity(8192);
    assert!(conn.on_incoming_data_channel(2));
    match conn.poll_inbound() {
        Poll::Ready(Ok(s)) => assert_eq!(s.read_buf_capacity, Some(8192)),
        other => panic!("expected a substream, got {:?}", other),
    }
}

#[test]
fn one_outbound_open_at_a_time() {
    let mut conn: Connection<u32> = Connection::new();
    assert!(conn.begin_outbound());
    assert!(!conn.begin_outbound());
    let substream = conn.complete_outbound(Ok(7)).unwrap();
    assert_eq!(substream.channel, 7);
    assert!(conn.begin_outbound());
}

#[test]
fn outbound_errors_pass_through() {
    let mut conn: Connection<u32> = Connection::new();
    assert!(conn.begin_outbound());
    let failed = conn.complete_outbound(Err(Error::WebRTC(String::from("no transport"))));
    assert_eq!(failed, Err(Error::WebRTC(String::from("no transport"))));
    assert!(conn.begin_outbound());
}

#[test]
fn outbound_substreams_take_the_current_hint() {
    let mut conn: Connection<u32> = Connection::new();
    conn.set_data_channels_read_buf_capacity(512);
    assert!(conn.begin_outbound());
    let substream = conn.complete_outbound(Ok(3)).unwrap();
    assert_eq!(substream.read_buf_capacity, Some(512));
}

#[test]
fn one_close_at_a_time_and_failure_is_retryable() {
    let mut conn: Connection<u32> = Connection::new();
    assert_eq!(conn.begin_close(), CloseProgress::Begin);
    assert_eq!(conn.begin_close(), CloseProgress::InFlight);
    let failed = conn.complete_close(Err(Error::WebRTC(String::from("ice died"))));
    assert_eq!(failed, Err(Error::WebRTC(String::from("ice died"))));
    assert_eq!(conn.begin_close(), CloseProgress::Begin);
}

#[test]
fn close_drains_then_errors_and_is_idempotent() {
    let mut conn: Connection<u32> = Connection::new();
    assert!(conn.on_incoming_data_channel(1));
    assert_eq!(conn.begin_close(), CloseProgress::Begin);
    assert!(conn.complete_close(Ok(())).is_ok());

    assert!(!conn.on_incoming_data_channel(2));
    assert_eq!(deliver(&mut conn), 1);
    match conn.poll_inbound() {
        Poll::Ready(Err(Error::InternalError(_))) => {}
        other => panic!("expected the closed error, got {:?}", other),
    }
    assert_eq!(conn.begin_close(), CloseProgress::AlreadyClosed);
}

#[test]
fn substream_smooths_messages_into_a_byte_stream() {
    let mut conn: Connection<u32> = Connection::new();
    assert!(conn.on_incoming_data_channel(1));
    let mut substream = match conn.poll_inbound() {
        Poll::Ready(Ok(s)) => s,
        other => panic!("expected a substream, got {:?}", other),
    };

    assert_eq!(substream.read_buffered(8), None);
    substream.push_bytes(&[1, 2, 3]);
    substream.push_bytes(&[4, 5]);
    assert_eq!(substream.read_buffered(0), None);
    assert_eq!(substream.read_buffered(2), Some(vec![1, 2]));
    assert_eq!(substream.read_buffered(10), Some(vec![3, 4, 5]));
    assert_eq!(substream.read_buffered(10), None);
}

#[test]
fn no_address_changes() {
    let conn: Connection<u32> = Connection::new();
    assert_eq!(conn.poll_address_change(), Poll::Pending);
}
