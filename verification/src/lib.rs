//! A proxy layer between application callers and two external services: a
//! vector-similarity database and a message broker.
//!
//! The decision logic of the proxy is collected here and verified: the
//! filter translation feeding search and recommendation, the collection
//! lifecycle policy, the request building and status interpretation of the
//! upsert and query paths, and the broker reconnect and topology-bind state
//! machines. The network calls themselves are asynchronous and live in the
//! surrounding application, which drives these state machines and hands
//! their decisions to the external clients.

pub mod filters;
pub mod qdrant;
pub mod rabbitmq;
