//! Verified core of a gossip-based dissemination layer for block headers.
//!
//! The library models the decision logic of the network facade: topic
//! membership, duplicate suppression by content-derived message identity,
//! strict signature validation policy, translation of low-level transport
//! events into a closed set of domain events, and terminal-state tracking.
//! The transport, discovery and cryptographic collaborators live outside
//! the verified core and hand it plain values.

pub mod addr;
pub mod engine;
pub mod laws;
pub mod msg_id;
pub mod network;
pub mod peer;

pub use addr::FullAddr;
pub use addr::NetAddr;
pub use engine::EngineModel;
pub use engine::GossipConfig;
pub use engine::GossipEngine;
pub use engine::Message;
pub use engine::PublishError;
pub use engine::ValidationMode;
pub use msg_id::MessageId;
pub use msg_id::content_hash;
pub use network::LowEvent;
pub use network::Network;
pub use network::PollOutcome;
pub use network::StreamItem;
pub use peer::PeerId;
