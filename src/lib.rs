//! Connection hub of a real-time alert relay: the registry of live
//! connections, the classification of inbound text, the topic-based fan-out
//! and the decisions of the single command consumer.
pub mod model;
pub mod registry;
pub mod actor;
pub mod router;
pub mod lifecycle;

