use server_socket::holding::HoldingArea;
use server_socket::packet::{Packet, PeerAddress};

fn packet(tag: u8) -> Packet {
    Packet::new(PeerAddress::v4(10, 0, 0, tag, 1000), vec![tag])
}

#[test]
fn a_new_holding_area_is_empty_and_releases_nothing() {
    let mut area = HoldingArea::new();
    assert_eq!(area.len(), 0);
    assert_eq!(area.release(u64::MAX, true), None);
    assert_eq!(area.release(u64::MAX, false), None);
}

#[test]
fn a_packet_is_released_from_its_release_time_on() {
    let mut area = HoldingArea::new();
    area.hold(10, packet(1));
    assert_eq!(area.len(), 1);
    assert_eq!(area.release(9, true), None);
    assert_eq!(area.len(), 1);
    assert_eq!(area.release(10, true), Some(packet(1)));
    assert_eq!(area.len(), 0);
}

#[test]
fn the_earliest_release_goes_first_where_packets_may_overtake() {
    let mut area = HoldingArea::new();
    area.hold(30, packet(1));
    area.hold(10, packet(2));
    area.hold(20, packet(3));
    area.hold(10, packet(4));
    assert_eq!(area.release(100, true), Some(packet(2)));
    assert_eq!(area.release(100, true), Some(packet(4)));
    assert_eq!(area.release(100, true), Some(packet(3)));
    assert_eq!(area.release(100, true), Some(packet(1)));
    assert_eq!(area.release(100, true), None);
}

#[test]
fn a_later_release_is_not_handed_on_while_the_earliest_is_not_due() {
    let mut area = HoldingArea::new();
    area.hold(30, packet(1));
    area.hold(10, packet(2));
    assert_eq!(area.release(9, true), None);
    assert_eq!(area.release(10, true), Some(packet(2)));
    assert_eq!(area.release(29, true), None);
    assert_eq!(area.release(30, true), Some(packet(1)));
}

#[test]
fn the_oldest_goes_first_where_packets_may_not_overtake() {
    let mut area = HoldingArea::new();
    area.hold(30, packet(1));
    area.hold(10, packet(2));
    area.hold(20, packet(3));
    assert_eq!(area.release(29, false), None);
    assert_eq!(area.len(), 3);
    assert_eq!(area.release(30, false), Some(packet(1)));
    assert_eq!(area.release(30, false), Some(packet(2)));
    assert_eq!(area.release(30, false), Some(packet(3)));
    assert_eq!(area.len(), 0);
}

#[test]
fn the_packets_that_stay_keep_their_order() {
    let mut area = HoldingArea::new();
    area.hold(5, packet(1));
    area.hold(1, packet(2));
    area.hold(5, packet(3));
    assert_eq!(area.release(1, true), Some(packet(2)));
    assert_eq!(area.release(5, false), Some(packet(1)));
    assert_eq!(area.release(5, false), Some(packet(3)));
}
