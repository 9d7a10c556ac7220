//! How the outcome of a write to the store is judged.

use vstd::prelude::*;
use crate::text::{contains_text, occurs_in};

verus! {

/// What a write to the store came to.
#[derive(Clone, Copy, Debug, PartialEq, Eq, Structural)]
pub enum WriteStatus {
    /// The store acknowledged the write.
    Saved,
    /// The store reported an error about decoding its own acknowledgement:
    /// the write itself went through, so it counts as saved.
    Tolerated,
    /// Any other error: the record is lost.
    Failed,
}

/// Whether an error text is the store failing to decode its acknowledgement.
pub open spec fn is_ack_decode_text(msg: Seq<char>) -> bool {
    occurs_in(msg, "Serialization error"@) || occurs_in(msg, "failed to deserialize"@)
}

/// Whether a write error, given by its text, is the store failing to decode
/// its own acknowledgement after the write went through.
pub fn is_tolerated_write_error(msg: &str) -> (r: bool)
    ensures
        r == is_ack_decode_text(msg@),
{
    contains_text(msg, "Serialization error") || contains_text(msg, "failed to deserialize")
}

/// The status a write result comes to.
pub open spec fn status_of(result: Result<(), String>) -> WriteStatus {
    match result {
        Ok(()) => WriteStatus::Saved,
        Err(msg) => if is_ack_decode_text(msg@) {
            WriteStatus::Tolerated
        } else {
            WriteStatus::Failed
        },
    }
}

/// The status of a write: saved when it succeeded, tolerated when its error
/// only concerns the acknowledgement, failed otherwise.
pub fn classify_write(result: &Result<(), String>) -> (r: WriteStatus)
    ensures
        r == status_of(*result),
{
    match result {
        Ok(()) => WriteStatus::Saved,
        Err(msg) => {
            if is_tolerated_write_error(msg.as_str()) {
                WriteStatus::Tolerated
            } else {
                WriteStatus::Failed
            }
        },
    }
}

/// A write error whose text says the store failed to deserialize is
/// tolerated, never a hard failure.
pub proof fn lemma_deserialize_failure_is_tolerated(msg: String)
    requires
        occurs_in(msg@, "failed to deserialize"@),
    ensures
        status_of(Err(msg)) == WriteStatus::Tolerated,
{
}

} // verus!
