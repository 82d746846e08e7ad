use chord_rs::{Client, ClientError, NetworkAddress, Node, NodeService};

fn node(id: u64) -> Node {
    let addr = NetworkAddress::v4(127, 0, 0, 1, 42000 + id as u16);
    Node::with_id(id, addr)
}

/// The successor on port 42016 reports the node with id 12 as its
/// predecessor; only the node on port 42012 accepts a notify, and only for
/// the candidate with id 8. A notify sent anywhere else, or for any other
/// candidate, fails — so a passing round proves who was notified.
struct AdoptClient {
    port: u16,
}

impl Client for AdoptClient {
    fn init(addr: NetworkAddress) -> Self {
        AdoptClient { port: addr.port }
    }

    fn find_successor(&self, _id: u64) -> Result<Node, ClientError> {
        Err(ClientError::Unexpected("unexpected call".to_string()))
    }

    fn successor(&self) -> Result<Node, ClientError> {
        Err(ClientError::Unexpected("unexpected call".to_string()))
    }

    fn predecessor(&self) -> Result<Option<Node>, ClientError> {
        if self.port == 42016 {
            Ok(Some(node(12)))
        } else {
            Err(ClientError::Unexpected("unexpected call".to_string()))
        }
    }

    fn notify(&self, predecessor: Node) -> Result<(), ClientError> {
        if self.port == 42012 && predecessor.id() == 8 {
            Ok(())
        } else {
            Err(ClientError::Unexpected("unexpected call".to_string()))
        }
    }

    fn ping(&self) -> Result<(), ClientError> {
        Err(ClientError::Unexpected("unexpected call".to_string()))
    }
}

#[test]
fn stabilize_when_predecessor_is_between_node_and_successor_then_set_set_the_it_as_new_successor() {
    let mut service: NodeService<AdoptClient> =
        NodeService::with_id(8, NetworkAddress::v4(127, 0, 0, 1, 42001));
    service.store.set_successor(node(16));

    assert_eq!(service.store.successor().id(), 16);
    let result = service.stabilize();
    assert!(result.is_ok());

    assert_eq!(service.store.successor().id(), 12);
}

/// The successor on port 42016 reports a predecessor outside the arc, and
/// accepts a notify for the candidate with id 8.
struct KeepClient {
    port: u16,
}

impl Client for KeepClient {
    fn init(addr: NetworkAddress) -> Self {
        KeepClient { port: addr.port }
    }

    fn find_successor(&self, _id: u64) -> Result<Node, ClientError> {
        Err(ClientError::Unexpected("unexpected call".to_string()))
    }

    fn successor(&self) -> Result<Node, ClientError> {
        Err(ClientError::Unexpected("unexpected call".to_string()))
    }

    fn predecessor(&self) -> Result<Option<Node>, ClientError> {
        if self.port == 42016 {
            Ok(Some(node(1)))
        } else {
            Err(ClientError::Unexpected("unexpected call".to_string()))
        }
    }

    fn notify(&self, predecessor: Node) -> Result<(), ClientError> {
        if self.port == 42016 && predecessor.id() == 8 {
            Ok(())
        } else {
            Err(ClientError::Unexpected("unexpected call".to_string()))
        }
    }

    fn ping(&self) -> Result<(), ClientError> {
        Err(ClientError::Unexpected("unexpected call".to_string()))
    }
}

#[test]
fn when_predecessor_is_not_between_node_and_successor_then_the_old_one_should_be_kept() {
    let mut service: NodeService<KeepClient> =
        NodeService::with_id(8, NetworkAddress::v4(127, 0, 0, 1, 42001));
    service.store.set_successor(node(16));

    assert_eq!(service.store.successor().id(), 16);
    let result = service.stabilize();
    assert!(result.is_ok());

    assert_eq!(service.store.successor().id(), 16);
}

/// Asking for the predecessor fails outright; the notify still succeeds.
struct FailingAskClient;

impl Client for FailingAskClient {
    fn init(_addr: NetworkAddress) -> Self {
        FailingAskClient
    }

    fn find_successor(&self, _id: u64) -> Result<Node, ClientError> {
        Err(ClientError::Unexpected("unexpected call".to_string()))
    }

    fn successor(&self) -> Result<Node, ClientError> {
        Err(ClientError::Unexpected("unexpected call".to_string()))
    }

    fn predecessor(&self) -> Result<Option<Node>, ClientError> {
        Err(ClientError::Unexpected("Test".to_string()))
    }

    fn notify(&self, predecessor: Node) -> Result<(), ClientError> {
        if predecessor.id() == 8 {
            Ok(())
        } else {
            Err(ClientError::Unexpected("unexpected call".to_string()))
        }
    }

    fn ping(&self) -> Result<(), ClientError> {
        Err(ClientError::Unexpected("unexpected call".to_string()))
    }
}

/// Asking for the predecessor fails, and every notify fails too: a round
/// that still tried to notify would surface that failure.
struct NoNotifyClient;

impl Client for NoNotifyClient {
    fn init(_addr: NetworkAddress) -> Self {
        NoNotifyClient
    }

    fn find_successor(&self, _id: u64) -> Result<Node, ClientError> {
        Err(ClientError::Unexpected("unexpected call".to_string()))
    }

    fn successor(&self) -> Result<Node, ClientError> {
        Err(ClientError::Unexpected("unexpected call".to_string()))
    }

    fn predecessor(&self) -> Result<Option<Node>, ClientError> {
        Err(ClientError::Unexpected("Test".to_string()))
    }

    fn notify(&self, _predecessor: Node) -> Result<(), ClientError> {
        Err(ClientError::Unexpected("notify should not have been sent".to_string()))
    }

    fn ping(&self) -> Result<(), ClientError> {
        Err(ClientError::Unexpected("unexpected call".to_string()))
    }
}

#[test]
fn stabilize_aborts_silently_when_the_ask_fails() {
    let mut service: NodeService<NoNotifyClient> =
        NodeService::with_id(8, NetworkAddress::v4(127, 0, 0, 1, 42001));
    service.store.set_successor(node(16));

    let result = service.stabilize();

    // The round ends quietly: no notify goes out (one would have failed
    // and surfaced), and nothing is updated.
    assert!(result.is_ok());
    assert_eq!(service.store.successor().id(), 16);
    assert!(service.store.predecessor.is_none());
}

#[test]
fn when_getting_predecessor_fails_then_nothing_should_be_updated() {
    let mut service: NodeService<FailingAskClient> =
        NodeService::with_id(8, NetworkAddress::v4(127, 0, 0, 1, 42001));
    service.store.set_successor(node(16));

    assert_eq!(service.store.successor().id(), 16);
    let _ = service.stabilize();

    assert_eq!(service.store.successor().id(), 16);
}
