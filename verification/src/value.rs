use vstd::prelude::*;

verus! {

/// A protocol value: the tagged union carried by reads, writes and change
/// notifications. A 32-bit real is held as its IEEE-754 bit pattern so that
/// this layer never computes on floating point; the transport edge converts.
#[derive(Debug, PartialEq)]
pub enum Value {
    Empty,
    Boolean(bool),
    Byte(u8),
    Int16(i16),
    UInt16(u16),
    Float32Bits(u32),
    Text(String),
    Array(Vec<Value>),
}

/// The status code servers use to report a fully successful operation.
pub const STATUS_GOOD: u32 = 0;

/// A status code reports failure exactly when its high severity bit is
/// set, that is, when it reaches 0x8000_0000.
pub open spec fn spec_status_is_bad(code: u32) -> bool {
    code >= 0x8000_0000u32
}

/// Whether a server-reported status code marks the result untrustworthy.
pub fn status_is_bad(code: u32) -> (r: bool)
    ensures
        r == spec_status_is_bad(code),
{
    code >= 0x8000_0000u32
}

/// A timestamped, quality-annotated observation of one node, produced by
/// every read and by every notification, and never mutated afterwards.
#[derive(Debug, PartialEq)]
pub struct NodeData {
    pub node_id: String,
    pub value: Value,
    /// Server-assigned instant in nanoseconds since the Unix epoch; the
    /// local clock stands in when the server reported none.
    pub timestamp: i64,
    pub quality: u32,
}

/// A pending write: created by a producer, consumed exactly once by the
/// queue drainer, then discarded. Retries are the producer's concern.
#[derive(Debug, PartialEq)]
pub struct WriteRequest {
    pub node_id: String,
    pub value: Value,
}

/// One attribute sample as the protocol reports it: each part may be absent.
#[derive(Debug, PartialEq)]
pub struct DataValue {
    pub value: Option<Value>,
    pub status: Option<u32>,
    pub timestamp: Option<i64>,
}

/// The lifecycle of the single logical connection. Exactly one state holds
/// at any instant; only connect, disconnect and the recovery supervisor
/// drive transitions.
#[derive(Debug, Clone, Copy, PartialEq, Eq, Structural)]
pub enum ConnectionState {
    Connected,
    Disconnected,
    Connecting,
}

} // verus!
