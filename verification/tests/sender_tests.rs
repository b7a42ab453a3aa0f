use futures_channel::mpsc;

use server_socket::conditions::Conditions;
use server_socket::error::QueueClosed;
use server_socket::event::{SocketEvent, SocketStep};
use server_socket::message_sender::MessageSender;
use server_socket::packet::{Packet, PeerAddress};
use server_socket::server_socket::ServerSocket;
use server_socket::socket::Socket;

fn peer(port: u16) -> PeerAddress {
    PeerAddress::v4(192, 168, 1, 20, port)
}

fn bound() -> Socket {
    let address = PeerAddress::v4(127, 0, 0, 1, 14191);
    ServerSocket::listen(address, address, |_port| true).expect("the port is named")
}

#[test]
fn send_puts_the_packet_on_the_queue() {
    let (producer, mut consumer) = mpsc::unbounded::<Packet>();
    let mut sender = MessageSender::new(producer);
    let packet = Packet::new(peer(1), vec![1, 2, 3]);
    assert_eq!(sender.send(packet.clone()), Ok(()));
    assert_eq!(consumer.try_recv(), Ok(packet));
    assert!(consumer.try_recv().is_err());
}

#[test]
fn send_fails_once_the_consumer_is_gone_and_hands_the_packet_back() {
    let (producer, consumer) = mpsc::unbounded::<Packet>();
    let mut sender = MessageSender::new(producer);
    drop(consumer);
    let packet = Packet::new(peer(2), vec![7]);
    assert_eq!(sender.send(packet.clone()), Err(QueueClosed { packet }));
}

#[test]
fn report_keeps_success_and_wraps_a_rejected_packet() {
    assert_eq!(MessageSender::report(Ok(())), Ok(()));
    let packet = Packet::new(peer(3), vec![5, 5]);
    assert_eq!(
        MessageSender::report(Err(packet.clone())),
        Err(QueueClosed { packet })
    );
}

#[test]
fn every_handle_of_a_socket_feeds_the_same_queue() {
    let mut socket = bound();
    let mut handles: Vec<MessageSender> = Vec::new();
    for _ in 0..4 {
        handles.push(socket.get_sender());
    }
    for a in handles.iter() {
        for b in handles.iter() {
            assert!(a.same_queue(b));
        }
    }
    for (i, handle) in handles.iter_mut().enumerate() {
        let packet = Packet::new(peer(i as u16), vec![i as u8]);
        handle.send(packet).expect("the socket lives");
    }
    let still = Conditions::new(0, 0, 0, true);
    for i in 0..4usize {
        let next = socket.outbound_queue().try_recv().ok();
        let expected = Packet::new(peer(i as u16), vec![i as u8]);
        assert_eq!(
            socket.receive(SocketEvent::Outbound(next), &still),
            SocketStep::Send(expected)
        );
    }
}

#[test]
fn handles_of_different_sockets_feed_different_queues() {
    let mut one = bound();
    let mut other = bound();
    let a = one.get_sender();
    let b = other.get_sender();
    assert!(a.same_queue(&a));
    assert!(!a.same_queue(&b));
    assert!(!b.same_queue(&a));
}

#[test]
fn a_clone_feeds_the_queue_of_its_source() {
    let mut socket = bound();
    let source = socket.get_sender();
    let mut copy = source.clone();
    assert!(copy.same_queue(&source));
    assert!(source.same_queue(&copy));
    let packet = Packet::new(peer(9), vec![9]);
    copy.send(packet.clone()).expect("the socket lives");
    assert_eq!(socket.outbound_queue().try_recv(), Ok(packet));
}

#[test]
fn every_handle_fails_after_the_socket_is_dropped() {
    let mut socket = bound();
    let mut handles: Vec<MessageSender> = Vec::new();
    for _ in 0..3 {
        handles.push(socket.get_sender());
    }
    let mut copy = handles[0].clone();
    drop(socket);
    for (i, handle) in handles.iter_mut().enumerate() {
        let packet = Packet::new(peer(i as u16), vec![i as u8]);
        assert_eq!(handle.send(packet.clone()), Err(QueueClosed { packet }));
    }
    let packet = Packet::new(peer(77), vec![]);
    assert_eq!(copy.send(packet.clone()), Err(QueueClosed { packet }));
}

#[test]
fn handles_outlive_a_conditioned_socket_too() {
    let socket = bound();
    let config = server_socket::conditions::LinkConditionerConfig::new(10, 0, 0, true);
    let mut conditioned = socket.with_link_conditioner(&config);
    let mut handle = conditioned.get_sender();
    let packet = Packet::new(peer(5), vec![1]);
    assert_eq!(handle.send(packet.clone()), Ok(()));
    assert_eq!(conditioned.outbound_queue().try_recv(), Ok(packet));
    drop(conditioned);
    let packet = Packet::new(peer(6), vec![2]);
    assert_eq!(handle.send(packet.clone()), Err(QueueClosed { packet }));
}

#[test]
fn a_handle_feeds_the_queue_that_its_socket_drains() {
    let mut socket = bound();
    let handle = socket.get_sender();
    let copy = handle.clone();
    assert!(handle.feeds_queue(socket.outbound_queue()));
    assert!(copy.feeds_queue(socket.outbound_queue()));
    let config = server_socket::conditions::LinkConditionerConfig::new(5, 0, 0, true);
    let mut conditioned = socket.with_link_conditioner(&config);
    let later = conditioned.get_sender();
    assert!(handle.feeds_queue(conditioned.outbound_queue()));
    assert!(later.feeds_queue(conditioned.outbound_queue()));
}

#[test]
fn a_handle_does_not_feed_the_queue_of_another_socket() {
    let mut one = bound();
    let mut other = bound();
    let a = one.get_sender();
    let b = other.get_sender();
    assert!(!a.feeds_queue(other.outbound_queue()));
    assert!(!b.feeds_queue(one.outbound_queue()));
    assert!(a.feeds_queue(one.outbound_queue()));
}

#[test]
fn a_handle_feeds_the_consumer_end_of_its_own_channel_only() {
    let (producer, consumer) = mpsc::unbounded::<Packet>();
    let (_, stranger) = mpsc::unbounded::<Packet>();
    let sender = MessageSender::new(producer);
    assert!(sender.feeds_queue(&consumer));
    assert!(!sender.feeds_queue(&stranger));
}

#[test]
fn the_queue_that_is_handed_out_is_the_one_that_the_handles_feed() {
    let mut socket = bound();
    let mut handle = socket.get_sender();
    let first = Packet::new(peer(1), vec![1]);
    let second = Packet::new(peer(2), vec![2]);
    handle.send(first.clone()).expect("the socket lives");
    assert_eq!(socket.outbound_queue().try_recv(), Ok(first));
    handle.send(second.clone()).expect("the socket lives");
    assert_eq!(socket.outbound_queue().try_recv(), Ok(second));
    assert!(socket.outbound_queue().try_recv().is_err());
}
