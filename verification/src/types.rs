//! Data model of the query layer.
//!
//! A key image is a fixed-size opaque 32-byte marker, held here as four
//! 64-bit words; the logic never reads inside one, it only compares whole
//! values. Result codes are small closed enumerations whose numeric wire
//! values are stable and round-trip unchanged between client and server.

use vstd::prelude::*;

verus! {

/// A one-time spend marker: a fixed-size opaque 32-byte blob, unique per
/// spend, held as four 64-bit words.
#[derive(Clone, Copy, Debug, PartialEq, Eq, Structural)]
pub struct KeyImage {
    pub w0: u64,
    pub w1: u64,
    pub w2: u64,
    pub w3: u64,
}

/// The public key of a transaction output: a fixed-size opaque 32-byte
/// blob, held as four 64-bit words.
#[derive(Clone, Copy, Debug, PartialEq, Eq, Structural)]
pub struct TxOutPublicKey {
    pub w0: u64,
    pub w1: u64,
    pub w2: u64,
    pub w3: u64,
}

/// Outcome of resolving the signing timestamp of one block index.
#[derive(Clone, Copy, Debug, PartialEq, Eq, Structural)]
pub enum TimestampResultCode {
    /// At least one signed timestamp is on record for the block; the
    /// earliest one was returned.
    TimestampFound,
    /// Some observer has not yet synced up to the block even though another
    /// has: the absence of a timestamp may be temporary.
    WatcherBehind,
    /// Every observer has synced past the block and none ever signed it:
    /// the absence is permanent.
    Unavailable,
    /// No observer has synced up to the block; its timestamp is unknown.
    BlockIndexOutOfBounds,
}

impl TimestampResultCode {
    /// The code's stable numeric value on the wire.
    pub open spec fn spec_wire_value(self) -> u32 {
        match self {
            TimestampResultCode::TimestampFound => 1,
            TimestampResultCode::WatcherBehind => 2,
            TimestampResultCode::Unavailable => 3,
            TimestampResultCode::BlockIndexOutOfBounds => 4,
        }
    }

    /// The code a wire value names, if any.
    pub open spec fn spec_from_wire(value: u32) -> Option<TimestampResultCode> {
        if value == 1 {
            Some(TimestampResultCode::TimestampFound)
        } else if value == 2 {
            Some(TimestampResultCode::WatcherBehind)
        } else if value == 3 {
            Some(TimestampResultCode::Unavailable)
        } else if value == 4 {
            Some(TimestampResultCode::BlockIndexOutOfBounds)
        } else {
            None
        }
    }

    /// Encodes the code for the wire.
    pub fn wire_value(&self) -> (v: u32)
        ensures
            v == self.spec_wire_value(),
    {
        match self {
            TimestampResultCode::TimestampFound => 1,
            TimestampResultCode::WatcherBehind => 2,
            TimestampResultCode::Unavailable => 3,
            TimestampResultCode::BlockIndexOutOfBounds => 4,
        }
    }

    /// Decodes a wire value; an unknown value is rejected, not mapped to a
    /// default.
    pub fn from_wire(value: u32) -> (r: Option<TimestampResultCode>)
        ensures
            r == TimestampResultCode::spec_from_wire(value),
    {
        if value == 1 {
            Some(TimestampResultCode::TimestampFound)
        } else if value == 2 {
            Some(TimestampResultCode::WatcherBehind)
        } else if value == 3 {
            Some(TimestampResultCode::Unavailable)
        } else if value == 4 {
            Some(TimestampResultCode::BlockIndexOutOfBounds)
        } else {
            None
        }
    }
}

/// Every timestamp result code round-trips unchanged through its wire
/// value.
pub proof fn lemma_timestamp_code_round_trip(code: TimestampResultCode)
    ensures
        TimestampResultCode::spec_from_wire(code.spec_wire_value()) == Some(code),
{
}

/// Outcome of looking one transaction output up by its public key.
#[derive(Clone, Copy, Debug, PartialEq, Eq, Structural)]
pub enum TxOutResultCode {
    /// The output exists; its position and owning block were returned.
    Found,
    /// No output with the queried public key exists in the ledger.
    NotFound,
}

impl TxOutResultCode {
    /// The code's stable numeric value on the wire.
    pub open spec fn spec_wire_value(self) -> u32 {
        match self {
            TxOutResultCode::Found => 1,
            TxOutResultCode::NotFound => 2,
        }
    }

    /// The code a wire value names, if any.
    pub open spec fn spec_from_wire(value: u32) -> Option<TxOutResultCode> {
        if value == 1 {
            Some(TxOutResultCode::Found)
        } else if value == 2 {
            Some(TxOutResultCode::NotFound)
        } else {
            None
        }
    }

    /// Encodes the code for the wire.
    pub fn wire_value(&self) -> (v: u32)
        ensures
            v == self.spec_wire_value(),
    {
        match self {
            TxOutResultCode::Found => 1,
            TxOutResultCode::NotFound => 2,
        }
    }

    /// Decodes a wire value; an unknown value is rejected.
    pub fn from_wire(value: u32) -> (r: Option<TxOutResultCode>)
        ensures
            r == TxOutResultCode::spec_from_wire(value),
    {
        if value == 1 {
            Some(TxOutResultCode::Found)
        } else if value == 2 {
            Some(TxOutResultCode::NotFound)
        } else {
            None
        }
    }
}

/// Every output result code round-trips unchanged through its wire value.
pub proof fn lemma_txout_code_round_trip(code: TxOutResultCode)
    ensures
        TxOutResultCode::spec_from_wire(code.spec_wire_value()) == Some(code),
{
}

/// The fixed sentinel answer for a key image never observed as spent: no
/// spending block, and the timestamp pair `(u64::MAX, TimestampFound)` by
/// convention, preserving a stable response shape.
pub open spec fn never_spent_result(key_image: KeyImage) -> KeyImageResult {
    KeyImageResult {
        key_image,
        spent_at: None,
        timestamp: u64::MAX,
        timestamp_result_code: TimestampResultCode::TimestampFound,
    }
}

/// What one shard answers for one queried key image.
///
/// `spent_at` is `None` exactly when the key image was never observed as
/// spent within the answering shard's coverage; the timestamp fields then
/// hold the fixed sentinel `(u64::MAX, TimestampFound)`, preserving a
/// stable response shape.
#[derive(Clone, Copy, Debug, PartialEq, Eq)]
pub struct KeyImageResult {
    /// The queried key image, echoed back.
    pub key_image: KeyImage,
    /// The block that spent the key image, or `None` when it was never
    /// observed as spent.
    pub spent_at: Option<u64>,
    /// The resolved signing timestamp of the spending block.
    pub timestamp: u64,
    /// How the timestamp was resolved.
    pub timestamp_result_code: TimestampResultCode,
}

} // verus!
