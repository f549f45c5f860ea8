//! Encoding dispatcher: given a raw bus sample and its declared transport
//! encoding, extracts the payload bytes to forward, and classifies supported
//! versus unsupported encodings.

use vstd::prelude::*;
use vstd::utf8::valid_utf8;
use crate::errors::ForwardError;

verus! {

/// How a topic's messages are typed, which decides both the channel's
/// encoding metadata and how sample payloads are extracted.
#[derive(Debug, Clone, Copy, PartialEq, Eq, Structural)]
pub enum MessageKind {
    /// Messages are protobuf-encoded; samples are forwarded byte for byte.
    Protobuf,
    /// Messages are JSON text; samples must carry a supported text or binary
    /// transport encoding.
    Json,
}

/// The transport-level encoding tag of one bus sample, as a closed set of
/// variants so that dispatch is exhaustive.
#[derive(Debug, Clone, Copy, PartialEq, Eq, Structural)]
pub enum PayloadEncoding {
    /// A raw octet stream.
    Binary,
    /// Plain text.
    TextPlain,
    /// JSON text.
    TextJson,
    /// Any other transport encoding.
    Unknown,
}

/// One message received from a bus subscription: its transport encoding tag
/// and its contiguous payload bytes.
pub struct Sample {
    pub encoding: PayloadEncoding,
    pub value: Vec<u8>,
}

/// What payload extraction yields for a sample on a topic of the given kind:
/// the bytes to forward, or nothing when the sample must be dropped.
///
/// Protobuf topics forward the sample's bytes unchanged, whatever the
/// transport encoding: the payload is already in the wire format the
/// visualization client expects. JSON topics accept raw binary payloads
/// unchanged and text payloads only when they are valid UTF-8; every other
/// transport encoding is unsupported.
pub open spec fn spec_extract_payload(kind: MessageKind, encoding: PayloadEncoding, value: Seq<u8>) -> Option<Seq<u8>> {
    match kind {
        MessageKind::Protobuf => Some(value),
        MessageKind::Json => match encoding {
            PayloadEncoding::Binary => Some(value),
            PayloadEncoding::TextPlain => if valid_utf8(value) {
                Some(value)
            } else {
                None
            },
            PayloadEncoding::TextJson => if valid_utf8(value) {
                Some(value)
            } else {
                None
            },
            PayloadEncoding::Unknown => None,
        },
    }
}

/// The error a dropped sample is reported with; meaningful only where
/// [`spec_extract_payload`] is `None`.
pub open spec fn spec_extract_error(kind: MessageKind, encoding: PayloadEncoding) -> ForwardError {
    if encoding is Unknown {
        ForwardError::UnsupportedEncoding
    } else {
        ForwardError::InvalidUtf8
    }
}

/// Relies on std's `str::from_utf8`: it returns `Ok` exactly on UTF-8 byte
/// sequences, the same property vstd's `valid_utf8` states.
#[verifier::external_body]
fn is_utf8(value: &Vec<u8>) -> (r: bool)
    ensures
        r == valid_utf8(value@),
{
    core::str::from_utf8(value.as_slice()).is_ok()
}

/// Extracts the payload bytes to forward from one bus sample, per
/// [`spec_extract_payload`]; a dropped sample reports whether its encoding is
/// unsupported or its text is not valid UTF-8.
pub fn extract_payload(kind: MessageKind, sample: Sample) -> (r: Result<Vec<u8>, ForwardError>)
    ensures
        r matches Ok(payload) ==> spec_extract_payload(kind, sample.encoding, sample.value@) == Some(payload@),
        r is Err <==> spec_extract_payload(kind, sample.encoding, sample.value@) is None,
        r matches Err(e) ==> e == spec_extract_error(kind, sample.encoding),
{
    match kind {
        MessageKind::Protobuf => Ok(sample.value),
        MessageKind::Json => match sample.encoding {
            PayloadEncoding::Binary => Ok(sample.value),
            PayloadEncoding::TextPlain => if is_utf8(&sample.value) {
                Ok(sample.value)
            } else {
                Err(ForwardError::InvalidUtf8)
            },
            PayloadEncoding::TextJson => if is_utf8(&sample.value) {
                Ok(sample.value)
            } else {
                Err(ForwardError::InvalidUtf8)
            },
            PayloadEncoding::Unknown => Err(ForwardError::UnsupportedEncoding),
        },
    }
}

} // verus!
