//! A verified MQTT topic repeater: subscribes to a set of topics on a source
//! broker and republishes matching messages, optionally transformed, to a
//! destination broker under a mapped topic name.
//!
//! The bridging pipeline lives here: the topic route table, the payload
//! transformation rules, and the state machine that drives the source
//! connection's event stream. Connection setup, configuration parsing and the
//! event loops themselves are thin unverified shells around these functions.

/// The source listener's routing state machine.
pub mod bridge;
/// Connection and bridge configuration data.
pub mod config;
/// The topic route table and its lookup.
pub mod route;
/// Payload transformation rules and the transform function.
pub mod transform;
