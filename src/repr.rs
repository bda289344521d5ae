//! Stable text renderings of domain values used as event fields.

use vstd::prelude::*;

verus! {

broadcast use vstd::string::group_string_axioms;

/// Why a pooled connection was closed.
#[derive(Clone, Copy, Debug, PartialEq, Eq, Structural)]
pub enum ConnectionClosedReason {
    Stale,
    Idle,
    Error,
    Dropped,
    PoolClosed,
}

/// Why a connection checkout failed.
#[derive(Clone, Copy, Debug, PartialEq, Eq, Structural)]
pub enum ConnectionCheckoutFailedReason {
    Timeout,
    ConnectionError,
}

/// The text of a connection-closed reason.
pub open spec fn closed_reason_text(r: ConnectionClosedReason) -> Seq<char> {
    match r {
        ConnectionClosedReason::Stale => "Connection became stale because the pool was cleared"@,
        ConnectionClosedReason::Idle =>
            "Connection has been available but unused for longer than the configured max idle time"@,
        ConnectionClosedReason::Error => "An error occurred while using the connection"@,
        ConnectionClosedReason::Dropped => "Connection was dropped during an operation"@,
        ConnectionClosedReason::PoolClosed => "Connection pool was closed"@,
    }
}

/// The text of a checkout-failed reason.
pub open spec fn checkout_failed_reason_text(r: ConnectionCheckoutFailedReason) -> Seq<char> {
    match r {
        ConnectionCheckoutFailedReason::Timeout =>
            "Wait queue timeout elapsed without a connection becoming available"@,
        ConnectionCheckoutFailedReason::ConnectionError =>
            "An error occurred while trying to establish a connection"@,
    }
}

impl ConnectionClosedReason {
    /// The fixed human-readable text of this reason.
    pub fn tracing_representation(self) -> (r: String)
        ensures
            r@ == closed_reason_text(self),
    {
        match self {
            ConnectionClosedReason::Stale => String::from_str(
                "Connection became stale because the pool was cleared",
            ),
            ConnectionClosedReason::Idle => String::from_str(
                "Connection has been available but unused for longer than the configured max idle time",
            ),
            ConnectionClosedReason::Error => String::from_str(
                "An error occurred while using the connection",
            ),
            ConnectionClosedReason::Dropped => String::from_str(
                "Connection was dropped during an operation",
            ),
            ConnectionClosedReason::PoolClosed => String::from_str("Connection pool was closed"),
        }
    }
}

impl ConnectionCheckoutFailedReason {
    /// The fixed human-readable text of this reason.
    pub fn tracing_representation(self) -> (r: String)
        ensures
            r@ == checkout_failed_reason_text(self),
    {
        match self {
            ConnectionCheckoutFailedReason::Timeout => String::from_str(
                "Wait queue timeout elapsed without a connection becoming available",
            ),
            ConnectionCheckoutFailedReason::ConnectionError => String::from_str(
                "An error occurred while trying to establish a connection",
            ),
        }
    }
}

/// The lowercase hexadecimal digit of `n`, which is below 16.
pub open spec fn hex_digit(n: u8) -> char {
    if n < 10 {
        ((n + 48) as u8) as char
    } else {
        ((n + 87) as u8) as char
    }
}

/// Two lowercase hexadecimal digits per byte, most significant first.
pub open spec fn lower_hex(bytes: Seq<u8>) -> Seq<char>
    decreases bytes.len(),
{
    if bytes.len() == 0 {
        Seq::empty()
    } else {
        seq![hex_digit(bytes[0] / 16), hex_digit(bytes[0] % 16)] + lower_hex(bytes.drop_first())
    }
}

/// Relies on bson's `ObjectId::from_bytes` and `ObjectId::to_hex`, which
/// hex-encodes the twelve bytes in lowercase.
#[verifier::external_body]
fn object_id_hex(id: [u8; 12]) -> (r: String)
    ensures
        r@ == lower_hex(id@),
{
    bson::oid::ObjectId::from_bytes(id).to_hex()
}

/// The rendering of an object identifier: 24 lowercase hexadecimal digits.
pub fn object_id_representation(id: [u8; 12]) -> (r: String)
    ensures
        r@ == lower_hex(id@),
{
    object_id_hex(id)
}

/// What bson's `Bson::into_canonical_extjson` renders, as text, for the document
/// whose BSON encoding is the given bytes.
pub uninterp spec fn canonical_extjson(document: Seq<u8>) -> Seq<char>;

/// The display text of the error that bson's `Document::from_reader` gives on
/// the given bytes, or `None` when they decode to a document.
pub uninterp spec fn document_decode_error(document: Seq<u8>) -> Option<Seq<char>>;

/// Relies on bson's `Document::from_reader` to decode a document from its BSON
/// bytes and on `Bson::into_canonical_extjson` to render it; a decoding error
/// comes back as its display text.
#[verifier::external_body]
fn render_canonical_extjson(document: &[u8]) -> (r: Result<String, String>)
    ensures
        match r {
            Ok(text) => document_decode_error(document@) is None && text@ == canonical_extjson(
                document@,
            ),
            Err(e) => document_decode_error(document@) == Some(e@),
        },
{
    match bson::Document::from_reader(document) {
        Ok(doc) => Ok(bson::Bson::Document(doc).into_canonical_extjson().to_string()),
        Err(e) => Err(e.to_string()),
    }
}

/// The kind of value being serialized, named in the fallback text.
#[derive(Clone, Copy, Debug, PartialEq, Eq, Structural)]
pub enum SerializedKind {
    Document,
    ServerDescription,
    TopologyDescription,
}

/// The name of a kind of serialized value.
pub open spec fn kind_name(kind: SerializedKind) -> Seq<char> {
    match kind {
        SerializedKind::Document => "document"@,
        SerializedKind::ServerDescription => "server description"@,
        SerializedKind::TopologyDescription => "topology description"@,
    }
}

/// The text that stands in for a value that could not be serialized.
pub open spec fn fallback_text(kind: SerializedKind, error: Seq<char>) -> Seq<char> {
    "Failed to serialize "@ + kind_name(kind) + ": "@ + error
}

/// The rendering of the BSON `document`: its canonical extended JSON, or the
/// fallback text when the bytes do not decode.
pub open spec fn rendering(kind: SerializedKind, document: Seq<u8>) -> Seq<char> {
    match document_decode_error(document) {
        None => canonical_extjson(document),
        Some(e) => fallback_text(kind, e),
    }
}

/// The field text for the outcome of a serialization: the serialized text, or
/// the fallback text naming the error.
pub fn serialization_outcome_text(kind: SerializedKind, outcome: Result<String, String>) -> (r: String)
    ensures
        r@ == match outcome {
            Ok(text) => text@,
            Err(e) => fallback_text(kind, e@),
        },
{
    match outcome {
        Ok(text) => text,
        Err(e) => {
            let mut r = String::from_str("Failed to serialize ");
            match kind {
                SerializedKind::Document => r.append("document"),
                SerializedKind::ServerDescription => r.append("server description"),
                SerializedKind::TopologyDescription => r.append("topology description"),
            }
            r.append(": ");
            r.append(e.as_str());
            r
        },
    }
}

/// The canonical extended JSON of a BSON document, or the fallback text when
/// the bytes do not decode.
pub fn document_representation(kind: SerializedKind, document: &[u8]) -> (r: String)
    ensures
        r@ == rendering(kind, document@),
{
    serialization_outcome_text(kind, render_canonical_extjson(document))
}

/// The rendering of a description that was serialized to the BSON bytes of
/// `serialized`, or whose serialization failed with the error text it holds.
pub open spec fn description_rendering(kind: SerializedKind, serialized: Result<Vec<u8>, String>) -> Seq<
    char,
> {
    match serialized {
        Ok(bytes) => rendering(kind, bytes@),
        Err(e) => fallback_text(kind, e@),
    }
}

/// The rendering of a server or topology description: the canonical extended
/// JSON of its serialized form, or the fallback text naming the failure.
pub fn description_representation(kind: SerializedKind, serialized: &Result<Vec<u8>, String>) -> (r:
    String)
    ensures
        r@ == description_rendering(kind, *serialized),
{
    match serialized {
        Ok(bytes) => document_representation(kind, bytes.as_slice()),
        Err(e) => serialization_outcome_text(kind, Err(e.clone())),
    }
}

} // verus!
