//! Static topic/schema configuration: which bus topics to bridge and how each
//! topic's messages are typed.

use vstd::prelude::*;

verus! {

/// A topic carrying protobuf-encoded messages of one named message type.
pub struct ProtobufSubscription {
    /// Bus topic to subscribe to.
    pub topic: String,
    /// Fully qualified protobuf message type name, e.g. `my.package.Msg`.
    pub proto_type: String,
}

/// A topic carrying JSON messages described by a named JSON schema.
pub struct JsonSubscription {
    /// Bus topic to subscribe to.
    pub topic: String,
    /// Human-readable type name advertised on the visualization channel.
    pub message_type: String,
    /// Name of a known JSON schema; when absent, a generic permissive schema
    /// is used.
    pub json_schema_name: Option<String>,
    /// Whether the channel should replay the most recent message to newly
    /// connecting clients; absent means false.
    pub latched: Option<bool>,
}

/// The whole static configuration: the protobuf topics first, then the JSON
/// topics, each in declaration order.
pub struct Configuration {
    pub protobuf_subscriptions: Vec<ProtobufSubscription>,
    pub json_subscriptions: Vec<JsonSubscription>,
}

} // verus!
