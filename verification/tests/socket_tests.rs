use server_socket::conditions::Conditions;
use server_socket::error::SocketError;
use server_socket::event::{SocketEvent, SocketStep};
use server_socket::packet::{Packet, PeerAddress};
use server_socket::server_socket::ServerSocket;
use server_socket::socket::Socket;

fn peer(last: u8, port: u16) -> PeerAddress {
    PeerAddress::v4(10, 0, 0, last, port)
}

fn bound() -> Socket {
    let address = PeerAddress::v4(127, 0, 0, 1, 14191);
    ServerSocket::listen(address, address, |_port| true).expect("the port is named")
}

fn still() -> Conditions {
    Conditions::new(0, 0, 0, true)
}

fn next_outbound(socket: &mut Socket) -> SocketEvent {
    SocketEvent::Outbound(socket.outbound_queue().try_recv().ok())
}

#[test]
fn a_round_of_a_plain_socket_begins_with_waiting() {
    let mut socket = bound();
    assert_eq!(socket.receive(SocketEvent::Resumed, &still()), SocketStep::Wait);
}

#[test]
fn an_inbound_packet_is_returned() {
    let mut socket = bound();
    let packet = Packet::new(peer(1, 5000), vec![9, 8, 7]);
    let step = socket.receive(SocketEvent::Inbound(Ok(packet.clone())), &still());
    assert_eq!(step, SocketStep::Return(Ok(packet)));
}

#[test]
fn an_inbound_failure_is_returned_wrapped() {
    let mut socket = bound();
    let failure = SocketEvent::Inbound(Err(String::from("connection reset")));
    let step = socket.receive(failure, &still());
    assert_eq!(
        step,
        SocketStep::Return(Err(SocketError::Wrapped(String::from("connection reset"))))
    );
    let packet = Packet::new(peer(1, 5000), vec![1]);
    let step = socket.receive(SocketEvent::Inbound(Ok(packet.clone())), &still());
    assert_eq!(step, SocketStep::Return(Ok(packet)));
}

#[test]
fn an_enqueued_packet_is_sent_and_a_successful_send_is_not_returned() {
    let mut socket = bound();
    let mut sender = socket.get_sender();
    let destination = peer(2, 6000);
    sender.send(Packet::new(destination, vec![1, 2, 3])).expect("the socket lives");

    assert_eq!(socket.receive(SocketEvent::Resumed, &still()), SocketStep::Wait);
    let event = next_outbound(&mut socket);
    match socket.receive(event, &still()) {
        SocketStep::Send(packet) => {
            assert_eq!(packet.payload(), &[1u8, 2, 3][..]);
            assert_eq!(packet.address(), destination);
        },
        other => panic!("the queued packet is to be sent, not {:?}", other),
    }
    assert_eq!(socket.receive(SocketEvent::Sent(true), &still()), SocketStep::Again);
    assert_eq!(socket.receive(SocketEvent::Resumed, &still()), SocketStep::Wait);
}

#[test]
fn a_failed_send_is_reported_once_and_later_packets_still_arrive() {
    let mut socket = bound();
    let destination = peer(3, 7000);
    let queued = Packet::new(destination, vec![4, 5]);
    let step = socket.receive(SocketEvent::Outbound(Some(queued.clone())), &still());
    assert_eq!(step, SocketStep::Send(queued));

    let step = socket.receive(SocketEvent::Sent(false), &still());
    assert_eq!(step, SocketStep::Return(Err(SocketError::SendError(destination))));

    let step = socket.receive(SocketEvent::Sent(false), &still());
    assert_eq!(step, SocketStep::Again);

    let arrival = Packet::new(peer(4, 7001), vec![6]);
    let step = socket.receive(SocketEvent::Inbound(Ok(arrival.clone())), &still());
    assert_eq!(step, SocketStep::Return(Ok(arrival)));
}

#[test]
fn a_failed_send_does_not_stop_the_next_send() {
    let mut socket = bound();
    let first = Packet::new(peer(5, 1), vec![1]);
    let second = Packet::new(peer(6, 2), vec![2]);
    assert_eq!(
        socket.receive(SocketEvent::Outbound(Some(first.clone())), &still()),
        SocketStep::Send(first)
    );
    assert_eq!(
        socket.receive(SocketEvent::Sent(false), &still()),
        SocketStep::Return(Err(SocketError::SendError(peer(5, 1))))
    );
    assert_eq!(
        socket.receive(SocketEvent::Outbound(Some(second.clone())), &still()),
        SocketStep::Send(second)
    );
    assert_eq!(socket.receive(SocketEvent::Sent(true), &still()), SocketStep::Again);
}

#[test]
fn a_report_with_no_send_under_way_is_passed_over() {
    let mut socket = bound();
    assert_eq!(socket.receive(SocketEvent::Sent(false), &still()), SocketStep::Again);
    assert_eq!(socket.receive(SocketEvent::Sent(true), &still()), SocketStep::Again);
}

#[test]
fn a_closed_queue_aborts() {
    let mut socket = bound();
    assert_eq!(socket.receive(SocketEvent::Outbound(None), &still()), SocketStep::Abort);
}

#[test]
fn queued_packets_are_sent_in_the_order_they_were_queued() {
    let mut socket = bound();
    let mut sender = socket.get_sender();
    let mut queued: Vec<Packet> = Vec::new();
    for i in 0..5u8 {
        let packet = Packet::new(peer(i, 4000 + u16::from(i)), vec![i, i + 1]);
        queued.push(packet.clone());
        sender.send(packet).expect("the socket lives");
    }
    let mut sent: Vec<Packet> = Vec::new();
    for _ in 0..5 {
        let event = next_outbound(&mut socket);
        match socket.receive(event, &still()) {
            SocketStep::Send(packet) => sent.push(packet),
            other => panic!("a queued packet is to be sent, not {:?}", other),
        }
        assert_eq!(socket.receive(SocketEvent::Sent(true), &still()), SocketStep::Again);
    }
    assert_eq!(sent, queued);
    assert!(socket.outbound_queue().try_recv().is_err());
}

#[test]
fn the_queue_stays_open_while_the_socket_lives() {
    let mut socket = bound();
    let sender = socket.get_sender();
    drop(sender);
    let outcome = socket.outbound_queue().try_recv();
    match outcome {
        Err(error) => assert!(error.is_empty()),
        Ok(_) => panic!("nothing was queued"),
    }
}
