//! Locating packet boundaries in an unframed byte stream.

use vstd::prelude::*;

verus! {

/// The byte that opens every transport packet.
pub const SYNC_BYTE: u8 = 0x47;

/// The length of every transport packet, in bytes.
pub const PACKET_SIZE: usize = 188;

/// The operation of the byte source that failed.
#[derive(Debug, Clone, Copy, PartialEq, Eq, Structural)]
pub enum IoFailure {
    /// Reading bytes failed.
    Read,
    /// Moving the cursor back failed.
    Seek,
}

/// Why synchronisation ended without an aligned cursor.
#[derive(Debug, Clone, Copy, PartialEq, Eq, Structural)]
pub enum SyncError {
    /// The source ran out before a sync byte was found.
    EndOfStream,
    /// The source failed.
    Io(IoFailure),
}

/// The first index at or after `from` whose byte is the sync byte, or the
/// length of `data` when there is none: where the cursor stands after
/// synchronising from `from`.
pub open spec fn sync_offset(data: Seq<u8>, from: int) -> int
    decreases data.len() - from,
{
    if from < 0 || from >= data.len() {
        data.len() as int
    } else if data[from] == SYNC_BYTE {
        from
    } else {
        sync_offset(data, from + 1)
    }
}

/// Synchronising skips exactly the bytes before the first sync byte: the
/// offset it reaches is not before the start, no byte passed over is a sync
/// byte, and the byte reached, if any, is one.
pub proof fn lemma_sync_offset_is_first(data: Seq<u8>, from: int)
    requires
        0 <= from <= data.len(),
    ensures
        from <= sync_offset(data, from) <= data.len(),
        forall|i: int| from <= i < sync_offset(data, from) ==> data[i] != SYNC_BYTE,
        sync_offset(data, from) < data.len() ==> data[sync_offset(data, from)] == SYNC_BYTE,
    decreases data.len() - from,
{
    if from < data.len() && data[from] != SYNC_BYTE {
        lemma_sync_offset_is_first(data, from + 1);
    }
}

/// Synchronising again from where synchronisation ended, without consuming
/// the sync byte that was found, ends at the same offset.
pub proof fn lemma_sync_idempotent(data: Seq<u8>, from: int)
    requires
        0 <= from <= data.len(),
    ensures
        sync_offset(data, sync_offset(data, from)) == sync_offset(data, from),
{
    lemma_sync_offset_is_first(data, from);
}

/// Synchronising from any offset that synchronisation passed over, or from
/// the offset that it reached, ends where it ended.
pub proof fn lemma_sync_offset_from_skipped(data: Seq<u8>, from: int, mid: int)
    requires
        0 <= from <= mid <= sync_offset(data, from),
    ensures
        sync_offset(data, mid) == sync_offset(data, from),
    decreases mid - from,
{
    lemma_sync_offset_is_first(data, from);
    if from < mid {
        lemma_sync_offset_from_skipped(data, from + 1, mid);
    }
}

} // verus!
