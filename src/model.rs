//! Plain values shared by the readings and the records.

use vstd::prelude::*;

verus! {

/// A 64-bit floating-point measurement, carried by its IEEE-754 bit pattern.
/// The library copies measurements from readings into records and never
/// computes with them, so the pattern is all it needs to hold.
#[derive(Clone, Copy, Debug, PartialEq, Eq, Structural)]
pub struct Float64 {
    pub bits: u64,
}

/// A 32-bit floating-point value (a city's coordinates), by its bit pattern.
#[derive(Clone, Copy, Debug, PartialEq, Eq, Structural)]
pub struct Float32 {
    pub bits: u32,
}

/// The identifier of a row in the store: its table and its key there.
#[derive(Clone, Debug)]
pub struct RecordKey {
    pub table: String,
    pub key: String,
}

impl RecordKey {
    /// A key in the given table.
    pub fn new(table: &str, key: &str) -> (r: RecordKey)
        ensures
            r.table@ == table@,
            r.key@ == key@,
    {
        RecordKey { table: String::from_str(table), key: String::from_str(key) }
    }
}

} // verus!
