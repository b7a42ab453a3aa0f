use server_socket::packet::{IpAddress, Packet, PeerAddress};

#[test]
fn packet_keeps_address_and_payload() {
    let address = PeerAddress::v4(127, 0, 0, 1, 4000);
    let packet = Packet::new(address, vec![1, 2, 3]);
    assert_eq!(packet.address(), address);
    assert_eq!(packet.payload(), &[1u8, 2, 3][..]);
}

#[test]
fn v4_address_spells_octets_in_network_order() {
    let address = PeerAddress::v4(127, 0, 0, 1, 8080);
    assert_eq!(address.ip(), IpAddress::V4(0x7f00_0001));
    assert_eq!(address.port(), 8080);
    assert_eq!(address.with_port(9).port(), 9);
    assert_eq!(address.with_port(9).ip(), address.ip());
}

#[test]
fn addresses_compare_by_ip_and_port() {
    let a = PeerAddress::new(IpAddress::V6(1), 443);
    let b = PeerAddress::new(IpAddress::V6(1), 443);
    let c = PeerAddress::new(IpAddress::V6(2), 443);
    let d = PeerAddress::new(IpAddress::V4(1), 443);
    assert_eq!(a, b);
    assert_ne!(a, c);
    assert_ne!(a, d);
    assert_ne!(a, a.with_port(444));
}

#[test]
fn packets_compare_by_address_and_payload() {
    let address = PeerAddress::v4(1, 2, 3, 4, 5);
    assert_eq!(Packet::new(address, vec![1, 2]), Packet::new(address, vec![1, 2]));
    assert_ne!(Packet::new(address, vec![1, 2]), Packet::new(address, vec![1, 3]));
    assert_ne!(
        Packet::new(address, vec![1, 2]),
        Packet::new(address.with_port(6), vec![1, 2])
    );
    assert_eq!(Packet::new(address, Vec::new()).payload().len(), 0);
}
