use ethproxy::link::{bind_address, to_network_order, AF_PACKET, ETH_P_ALL, PACKET_BROADCAST};

#[test]
fn bind_address_names_interface_and_hardware_address() {
    let address = bind_address([0x02, 0x42, 0xac, 0x11, 0x00, 0x02], 7);
    assert_eq!(address.family, 17);
    assert_eq!(address.protocol, [0x00, 0x03]);
    assert_eq!(address.ifindex, 7);
    assert_eq!(address.hatype, 0);
    assert_eq!(address.pkttype, 1);
    assert_eq!(address.halen, 6);
    assert_eq!(address.addr, [0x02, 0x42, 0xac, 0x11, 0x00, 0x02, 0x00, 0x00]);
}

#[test]
fn bind_address_keeps_a_negative_index() {
    let address = bind_address([0xff; 6], -1);
    assert_eq!(address.ifindex, -1);
    assert_eq!(address.addr, [0xff, 0xff, 0xff, 0xff, 0xff, 0xff, 0, 0]);
}

#[test]
fn constants_are_the_systems() {
    assert_eq!(AF_PACKET as i32, nix::libc::AF_PACKET);
    assert_eq!(ETH_P_ALL as i32, nix::libc::ETH_P_ALL);
    assert_eq!(PACKET_BROADCAST, nix::libc::PACKET_BROADCAST);
    let address = bind_address([0; 6], 1);
    assert_eq!(address.family as i32, nix::libc::AF_PACKET);
    assert_eq!(address.pkttype, nix::libc::PACKET_BROADCAST);
    assert_eq!(address.family, nix::sys::socket::AddressFamily::Packet as u16);
}

#[test]
fn protocol_selects_all_protocols_in_network_byte_order() {
    let address = bind_address([0; 6], 1);
    let all = nix::libc::ETH_P_ALL as u16;
    assert_eq!(address.protocol, all.to_be_bytes());
    assert_eq!(u16::from_ne_bytes(address.protocol), all.to_be());
    assert_eq!(u16::from_be_bytes(address.protocol), 0x0003);
}

#[test]
fn network_order_puts_the_high_byte_first() {
    assert_eq!(to_network_order(0x0003), [0x00, 0x03]);
    assert_eq!(to_network_order(0x0800), [0x08, 0x00]);
    assert_eq!(to_network_order(0x1234), [0x12, 0x34]);
    assert_eq!(to_network_order(0), [0, 0]);
    assert_eq!(to_network_order(u16::MAX), [0xff, 0xff]);
    for n in [1u16, 255, 256, 0x86dd, 0xfffe] {
        assert_eq!(to_network_order(n), n.to_be_bytes());
    }
}
