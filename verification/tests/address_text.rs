use chord_rs::{IpAddress, NetworkAddress, Node};

#[test]
fn v4_text_is_dotted_decimal_with_port() {
    let addr = NetworkAddress::v4(127, 0, 0, 1, 42001);
    assert_eq!(addr.to_text(), "127.0.0.1:42001");

    let addr = NetworkAddress::v4(255, 10, 0, 8, 65535);
    assert_eq!(addr.to_text(), "255.10.0.8:65535");
}

#[test]
fn v6_text_is_bracketed_hex_groups_with_port() {
    let addr = NetworkAddress {
        ip: IpAddress::V6(0x2001, 0xdb8, 0, 0, 0, 0, 0, 1),
        port: 8080,
    };
    assert_eq!(addr.to_text(), "[2001:db8:0:0:0:0:0:1]:8080");
}

#[test]
fn handle_equality_is_by_id() {
    // Two handles are equal iff their identifiers are equal: the endpoint
    // takes no part in identity.
    let here = NetworkAddress::v4(127, 0, 0, 1, 42001);
    let there = NetworkAddress::v4(10, 0, 0, 2, 42017);

    assert_eq!(Node::with_id(5, here), Node::with_id(5, there));
    assert_ne!(Node::with_id(5, here), Node::with_id(6, here));
}

#[test]
fn node_id_is_the_hash_of_the_endpoint_text() {
    let addr = NetworkAddress::v4(127, 0, 0, 1, 42001);
    let node = Node::new(addr);

    // The identifier is the fixed hash of the canonical endpoint text, so
    // the library must agree with the hash computed directly.
    assert_eq!(node.id(), seahash::hash("127.0.0.1:42001".as_bytes()));
    assert_eq!(node.addr(), addr);

    // Deriving again from the same endpoint gives the same identifier.
    assert_eq!(Node::new(addr).id(), node.id());

    // A different endpoint gives a different text, and the hash keeps the
    // two apart.
    let other = Node::new(NetworkAddress::v4(127, 0, 0, 1, 42002));
    assert_ne!(other.id(), node.id());
}
