use ublox_short_range::error::Error;
use ublox_short_range::ring_buffer::RingBuffer;
use ublox_short_range::socket::set::{Socket, SocketSet};
use ublox_short_range::socket::tcp::{State as TcpState, TcpSocket};
use ublox_short_range::socket::udp::{State as UdpState, UdpSocket};
use ublox_short_range::socket::{ChannelId, Instant, IpAddr, PeerHandle, SocketAddr, SocketHandle};
use ublox_short_range::socket_map::{SocketMap, SocketMapError};
use ublox_short_range::stack::{CloseAction, UbloxClient, EGRESS_CHUNK_SIZE};

fn remote() -> SocketAddr {
    SocketAddr { ip: IpAddr::V4(0xC0A8_0001), port: 8080 }
}

fn connected_client() -> (UbloxClient, SocketHandle) {
    let mut client = UbloxClient::new(2, 64);
    client.set_network_up(true);
    let h = client.tcp_open(Instant { millis: 0 }).unwrap();
    client.tcp_connect(h, remote()).unwrap();
    client.tcp_connect_done(h, Ok(PeerHandle(7))).unwrap();
    client.handle_peer_connected(PeerHandle(7), ChannelId(3));
    (client, h)
}

#[test]
fn ring_buffer_wraps_around() {
    let mut rb = RingBuffer::new(4);
    assert!(rb.is_empty());
    assert_eq!(rb.enqueue_slice(&[1, 2, 3]), 3);
    let mut out = [0u8; 2];
    assert_eq!(rb.dequeue_slice(&mut out), 2);
    assert_eq!(out, [1, 2]);
    assert_eq!(rb.enqueue_slice(&[4, 5, 6, 7]), 3);
    assert!(rb.is_full());
    assert_eq!(rb.window(), 0);
    let mut peek = [0u8; 3];
    assert_eq!(rb.peek_slice(&mut peek), 3);
    assert_eq!(peek, [3, 4, 5]);
    let mut all = [9u8; 6];
    assert_eq!(rb.dequeue_slice(&mut all), 4);
    assert_eq!(all, [3, 4, 5, 6, 9, 9]);
    assert_eq!(rb.len(), 0);
    assert_eq!(rb.capacity(), 4);
}

#[test]
fn open_then_close_leaves_empty_table() {
    let mut client = UbloxClient::new(2, 16);
    let h = client.tcp_open(Instant { millis: 0 }).unwrap();
    assert_eq!(h, SocketHandle(0));
    assert_eq!(client.sockets.len(), 1);
    assert_eq!(client.tcp_close(h), Ok(CloseAction::Removed));
    assert_eq!(client.sockets.len(), 0);
}

#[test]
fn open_beyond_capacity_is_full() {
    let mut client = UbloxClient::new(2, 16);
    assert_eq!(client.tcp_open(Instant { millis: 0 }), Ok(SocketHandle(0)));
    assert_eq!(client.tcp_open(Instant { millis: 0 }), Ok(SocketHandle(1)));
    assert_eq!(client.tcp_open(Instant { millis: 0 }), Err(Error::SocketSetFull));
    assert_eq!(client.sockets.len(), 2);
}

#[test]
fn open_recycles_a_socket_closed_long_enough() {
    let mut client = UbloxClient::new(1, 16);
    let h = client.tcp_open(Instant { millis: 0 }).unwrap();
    let mut taken = client.sockets.take(h).unwrap();
    if let Socket::Tcp(ref mut t) = taken {
        t.read_timeout = Some(1000);
        t.closed_by_remote(Instant { millis: 500 });
    }
    client.sockets.put(h, taken);
    assert_eq!(client.tcp_open(Instant { millis: 1000 }), Err(Error::SocketSetFull));
    assert_eq!(client.tcp_open(Instant { millis: 1500 }), Ok(SocketHandle(0)));
    assert_eq!(client.sockets.len(), 1);
}

#[test]
fn connect_then_close_blocks_send() {
    let (mut client, h) = connected_client();
    assert_eq!(client.tcp_is_connected(h), Ok(true));
    let cmds = client.tcp_send(h, &[1, 2, 3]).unwrap();
    assert_eq!(cmds.len(), 1);
    assert_eq!(cmds[0].channel, 3);
    assert_eq!(cmds[0].data, vec![1, 2, 3]);
    assert_eq!(client.tcp_close(h), Ok(CloseAction::ClosePeer(PeerHandle(7))));
    assert_eq!(
        client.tcp_close_done(h, PeerHandle(7), Err(Error::InvalidResponse), Instant { millis: 10 }),
        Ok(())
    );
    assert!(client.tcp_send(h, &[1]).is_err());
    assert_eq!(client.tcp_send(h, &[1]).err(), Some(Error::SocketClosed));
    assert_eq!(client.tcp_is_connected(h), Ok(false));
}

#[test]
fn send_chunks_large_buffers() {
    let (client, h) = connected_client();
    let data: Vec<u8> = (0..1100u32).map(|i| (i % 251) as u8).collect();
    let cmds = client.tcp_send(h, &data).unwrap();
    assert_eq!(cmds.len(), 3);
    assert_eq!(cmds[0].data.len(), EGRESS_CHUNK_SIZE);
    assert_eq!(cmds[1].data.len(), EGRESS_CHUNK_SIZE);
    assert_eq!(cmds[2].data.len(), 76);
    assert_eq!(cmds[2].data[..], data[1024..]);
}

#[test]
fn send_needs_network() {
    let (mut client, h) = connected_client();
    client.set_network_up(false);
    assert_eq!(client.tcp_send(h, &[1]).err(), Some(Error::Network));
    assert_eq!(client.tcp_is_connected(h), Ok(false));
}

#[test]
fn connect_failure_reverts_to_created() {
    let mut client = UbloxClient::new(1, 16);
    client.set_network_up(true);
    let h = client.tcp_open(Instant { millis: 0 }).unwrap();
    assert_eq!(
        client.tcp_connect(h, SocketAddr { ip: IpAddr::V4(1), port: 0 }),
        Err(Error::Unaddressable)
    );
    client.tcp_connect(h, remote()).unwrap();
    assert_eq!(client.tcp_connect_done(h, Err(Error::Timeout)), Err(Error::Unaddressable));
    match &client.sockets.slots[0] {
        Some(Socket::Tcp(t)) => assert_eq!(t.state(), TcpState::Created),
        _ => panic!("socket missing"),
    }
}

#[test]
fn connect_without_network_fails() {
    let mut client = UbloxClient::new(1, 16);
    let h = client.tcp_open(Instant { millis: 0 }).unwrap();
    assert_eq!(client.tcp_connect(h, remote()), Err(Error::Network));
    assert_eq!(client.tcp_connect(SocketHandle(5), remote()), Err(Error::Network));
    client.set_network_up(true);
    assert_eq!(client.tcp_connect(SocketHandle(5), remote()), Err(Error::NotFound));
}

#[test]
fn data_reaches_the_socket_of_its_channel() {
    let (mut client, h) = connected_client();
    assert_eq!(client.socket_ingress(ChannelId(3), &[5, 6, 7]), Ok(3));
    assert_eq!(client.socket_ingress(ChannelId(9), &[5]), Err(Error::NotFound));
    let mut buf = [0u8; 2];
    assert_eq!(client.tcp_receive(h, &mut buf, Instant { millis: 1 }), Ok(2));
    assert_eq!(buf, [5, 6]);
    assert_eq!(client.tcp_receive(h, &mut buf, Instant { millis: 1 }), Ok(1));
    assert_eq!(buf[0], 7);
}

#[test]
fn full_socket_is_busy() {
    let (mut client, _h) = connected_client();
    let data = [1u8; 64];
    assert_eq!(client.socket_ingress(ChannelId(3), &data), Ok(64));
    assert_eq!(client.socket_ingress(ChannelId(3), &data), Err(Error::Busy));
}

#[test]
fn remote_close_keeps_data_readable() {
    let (mut client, h) = connected_client();
    assert_eq!(client.socket_ingress(ChannelId(3), &[1, 2]), Ok(2));
    client.handle_peer_disconnected(PeerHandle(7), Instant { millis: 5 });
    assert_eq!(client.tcp_send(h, &[1]).err(), Some(Error::SocketClosed));
    let mut buf = [0u8; 4];
    assert_eq!(client.tcp_receive(h, &mut buf, Instant { millis: 6 }), Ok(2));
    assert_eq!(client.socket_map.peer_to_socket(&PeerHandle(7)), None);
    assert_eq!(client.socket_map.channel_to_socket(&ChannelId(3)), None);
}

#[test]
fn receive_on_unknown_socket_is_not_found() {
    let mut client = UbloxClient::new(1, 16);
    let mut buf = [0u8; 4];
    assert_eq!(client.tcp_receive(SocketHandle(0), &mut buf, Instant { millis: 0 }), Err(Error::NotFound));
    let h = client.tcp_open(Instant { millis: 0 }).unwrap();
    assert_eq!(client.tcp_receive(h, &mut buf, Instant { millis: 0 }), Err(Error::Illegal));
}

#[test]
fn close_connected_socket_without_peer_is_illegal() {
    let mut client = UbloxClient::new(1, 16);
    let h = client.tcp_open(Instant { millis: 0 }).unwrap();
    let mut taken = client.sockets.take(h).unwrap();
    if let Socket::Tcp(ref mut t) = taken {
        t.set_state(TcpState::Connected);
    }
    client.sockets.put(h, taken);
    assert_eq!(client.tcp_close(h), Err(Error::Illegal));
    assert_eq!(client.tcp_close(SocketHandle(3)), Err(Error::NotFound));
}

#[test]
fn udp_open_send_close() {
    let mut client = UbloxClient::new(2, 16);
    assert_eq!(
        client.udp_open(SocketAddr { ip: IpAddr::V4(1), port: 0 }),
        Err(Error::Unaddressable)
    );
    let h = client.udp_open(remote()).unwrap();
    client.set_network_up(true);
    assert_eq!(client.udp_send(h, &[1]).err(), Some(Error::SocketClosed));
    assert_eq!(client.tcp_close(h), Err(Error::Illegal));
    assert_eq!(client.udp_close(h), Ok(()));
    assert_eq!(client.udp_close(h), Err(Error::NotFound));
}

#[test]
fn udp_socket_bind_rules() {
    let mut u = UdpSocket::new(0, 8);
    assert_eq!(u.bind(SocketAddr { ip: IpAddr::V4(1), port: 0 }), Err(Error::Unaddressable));
    assert_eq!(u.bind(remote()), Ok(()));
    assert_eq!(u.endpoint(), remote());
    u.set_state(UdpState::Established);
    assert_eq!(u.bind(remote()), Err(Error::Illegal));
    assert!(u.is_open());
    u.close();
    assert_eq!(u.endpoint().port, 0);
}

#[test]
fn tcp_socket_receive_rules() {
    let mut t = TcpSocket::new(1, 4);
    assert_eq!(t.handle(), SocketHandle(1));
    assert!(!t.may_recv());
    let mut buf = [0u8; 2];
    assert_eq!(t.recv_slice(&mut buf), Err(Error::Illegal));
    assert_eq!(t.rx_enqueue_slice(&[1, 2, 3, 4, 5]), 4);
    assert!(t.may_recv());
    assert!(!t.can_recv());
    assert_eq!(t.recv_queue(), 4);
    assert!(!t.recycle(Instant { millis: 100 }));
    t.read_timeout = Some(10);
    t.closed_by_remote(Instant { millis: 50 });
    assert!(!t.recycle(Instant { millis: 59 }));
    assert!(t.recycle(Instant { millis: 60 }));
    assert!(!t.recycle(Instant { millis: 40 }));
}

#[test]
fn socket_set_assigns_smallest_free_handle() {
    let mut set = SocketSet::new(3);
    assert_eq!(set.add(Socket::Tcp(TcpSocket::new(9, 4))), Ok(SocketHandle(0)));
    assert_eq!(set.add(Socket::Udp(UdpSocket::new(9, 4))), Ok(SocketHandle(1)));
    assert_eq!(set.remove(SocketHandle(0)), Ok(()));
    assert_eq!(set.remove(SocketHandle(0)), Err(Error::NotFound));
    assert_eq!(set.add(Socket::Tcp(TcpSocket::new(9, 4))), Ok(SocketHandle(0)));
    assert!(set.contains(SocketHandle(1)));
    assert_eq!(set.len(), 2);
    assert_eq!(set.capacity(), 3);
}

#[test]
fn peer_insert_then_remove_leaves_no_reverse_entry() {
    let mut map = SocketMap::new();
    assert_eq!(map.insert_peer(PeerHandle(1), SocketHandle(4)), Ok(()));
    assert_eq!(map.socket_to_peer(&SocketHandle(4)), Some(PeerHandle(1)));
    map.remove_peer(&PeerHandle(1));
    assert_eq!(map.socket_to_peer(&SocketHandle(4)), None);
    assert_eq!(map.peer_to_socket(&PeerHandle(1)), None);
}

#[test]
fn full_map_keeps_its_entries() {
    let mut map = SocketMap::new();
    for i in 0..4u8 {
        assert_eq!(map.insert_channel(ChannelId(i), SocketHandle(i)), Ok(()));
    }
    assert_eq!(map.insert_channel(ChannelId(9), SocketHandle(9)), Err(SocketMapError::Full));
    for i in 0..4u8 {
        assert_eq!(map.channel_to_socket(&ChannelId(i)), Some(SocketHandle(i)));
    }
    assert_eq!(map.channel_to_socket(&ChannelId(9)), None);
    assert_eq!(map.insert_channel(ChannelId(2), SocketHandle(7)), Ok(()));
    assert_eq!(map.channel_to_socket(&ChannelId(2)), Some(SocketHandle(7)));
    assert_eq!(map.socket_to_channel_id(&SocketHandle(7)), Some(ChannelId(2)));
    assert_eq!(map.socket_to_channel_id(&SocketHandle(2)), None);
}

#[test]
fn dropping_an_open_udp_socket_queues_its_peer() {
    let mut client = UbloxClient::new(2, 8);
    let h = client.udp_open(remote()).unwrap();
    let mut taken = client.sockets.take(h).unwrap();
    if let Socket::Udp(ref mut u) = taken {
        u.set_state(UdpState::Established);
    }
    client.sockets.put(h, taken);
    client.socket_map.insert_peer(PeerHandle(4), h).unwrap();
    assert_eq!(client.udp_drop(h), Ok(()));
    assert_eq!(client.dropped_sockets, vec![PeerHandle(4)]);
    assert_eq!(client.sockets.len(), 0);
    let h = client.udp_open(remote()).unwrap();
    assert_eq!(client.udp_drop(h), Ok(()));
    assert_eq!(client.dropped_sockets.len(), 1);
    assert_eq!(client.udp_drop(h), Err(Error::NotFound));
}
