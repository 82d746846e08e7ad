//! A Chord distributed-hash-ring protocol engine.
//!
//! Each node owns an arc of a 64-bit identifier circle; together the nodes
//! answer "who is the successor of key `k`?" in `O(log N)` hops. This crate
//! holds the per-node engine: ring arithmetic, the finger table, the node
//! store, and the stabilization protocol. The wire transport is left to the
//! integrator, who supplies an implementation of the [`Client`] trait.

mod address;
mod client;
mod finger;
mod node;
mod ring;
mod service;
mod store;
mod text;

pub use address::IpAddress;
pub use address::NetworkAddress;
pub use address::spec_address_text;
pub use address::spec_ip_text;
pub use client::Client;
pub use client::ClientError;
pub use client::spec_client_error_text;
pub use finger::Finger;
pub use finger::spec_finger_id;
pub use node::Node;
pub use node::seahash_of;
pub use node::spec_node_id;
pub use ring::lemma_between_characterization;
pub use ring::spec_between;
pub use ring::spec_between_open;
pub use service::NodeService;
pub use service::ServiceError;
pub use service::spec_accepts_predecessor;
pub use service::spec_closest_preceding;
pub use service::spec_service_error_text;
pub use store::NodeStore;
pub use text::spec_dec_digits;
pub use text::spec_digit_char;
pub use text::spec_hex_digits;
