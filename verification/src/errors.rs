//! Error kinds of the bridge engine.
//!
//! Startup errors ([`BridgeError`]) are fatal for the whole orchestration:
//! planning aborts at the first one and no channel is provisioned. Per-message
//! errors ([`ForwardError`]) are contained: the affected sample is dropped and
//! the topic's forwarding loop continues.

use vstd::prelude::*;

verus! {

/// A fatal startup error: the configuration names a schema that cannot be
/// resolved.
#[derive(Debug, PartialEq, Eq)]
pub enum BridgeError {
    /// A protobuf type name was not found in the descriptor pool.
    SchemaNotFound { proto_type: String },
    /// A JSON schema name is not in the table of known schemas.
    UnknownJsonSchema { schema_name: String },
}

/// A per-message extraction failure: the sample is dropped, the loop goes on.
#[derive(Debug, Clone, Copy, PartialEq, Eq, Structural)]
pub enum ForwardError {
    /// A text-encoded sample whose payload is not valid UTF-8.
    InvalidUtf8,
    /// A sample whose transport encoding the bridge does not support.
    UnsupportedEncoding,
}

} // verus!
