use chord_rs::{Client, ClientError, NetworkAddress, Node, NodeService};

fn node(id: u64) -> Node {
    let addr = NetworkAddress::v4(127, 0, 0, 1, 42000 + id as u16);
    Node::with_id(id, addr)
}

/// A client that must never be reached: `notify` issues no remote calls.
struct UnreachedClient;

impl Client for UnreachedClient {
    fn init(_addr: NetworkAddress) -> Self {
        UnreachedClient
    }

    fn find_successor(&self, _id: u64) -> Result<Node, ClientError> {
        Err(ClientError::Unexpected("unexpected call".to_string()))
    }

    fn successor(&self) -> Result<Node, ClientError> {
        Err(ClientError::Unexpected("unexpected call".to_string()))
    }

    fn predecessor(&self) -> Result<Option<Node>, ClientError> {
        Err(ClientError::Unexpected("unexpected call".to_string()))
    }

    fn notify(&self, _predecessor: Node) -> Result<(), ClientError> {
        Err(ClientError::Unexpected("unexpected call".to_string()))
    }

    fn ping(&self) -> Result<(), ClientError> {
        Err(ClientError::Unexpected("unexpected call".to_string()))
    }
}

#[test]
fn when_calling_notify_and_predecessor_is_none_then_the_predecessor_should_be_set() {
    let mut service: NodeService<UnreachedClient> =
        NodeService::with_id(8, NetworkAddress::v4(127, 0, 0, 1, 42001));
    service.store.set_successor(node(16));

    assert!(service.store.predecessor.is_none());
    service.notify(node(8));

    assert_eq!(service.store.predecessor.unwrap().id(), 8);
}

#[test]
fn when_calling_notify_and_predecessor_set_and_request_node_is_in_range_then_the_predecessor_should_be_set()
 {
    let mut service: NodeService<UnreachedClient> =
        NodeService::with_id(8, NetworkAddress::v4(127, 0, 0, 1, 42001));
    service.store.set_successor(node(16));
    service.store.set_predecessor(node(4));

    assert!(service.store.predecessor.is_some());
    service.notify(node(8));

    assert_eq!(service.store.predecessor.unwrap().id(), 8);
}

#[test]
fn when_calling_notify_and_predecessor_set_and_request_node_is_not_in_range_then_the_predecessor_should_not_be_set()
 {
    let mut service: NodeService<UnreachedClient> =
        NodeService::with_id(8, NetworkAddress::v4(127, 0, 0, 1, 42001));
    service.store.set_successor(node(16));
    service.store.set_predecessor(node(4));

    assert!(service.store.predecessor.is_some());
    service.notify(node(16));

    assert_eq!(service.store.predecessor.unwrap().id(), 4);
}
