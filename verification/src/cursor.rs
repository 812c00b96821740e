//! A byte source held in memory: a buffer and a read position.

use crate::machine::{Event, Request, StreamState, SyncProgress};
use crate::sync::{
    lemma_sync_idempotent, lemma_sync_offset_is_first, sync_offset, SyncError, PACKET_SIZE,
    SYNC_BYTE,
};
use vstd::pervasive::unreached;
use vstd::prelude::*;
use vstd::slice::{slice_subrange, slice_to_vec};

verus! {

/// What a cursor stands for: the bytes of the source and the offset of the
/// byte that is read next.
pub struct CursorView {
    pub bytes: Seq<u8>,
    pub offset: int,
}

impl CursorView {
    /// The offset lies within the bytes or right behind them.
    pub open spec fn wf(self) -> bool {
        0 <= self.offset <= self.bytes.len()
    }

    /// The same bytes read from another offset.
    pub open spec fn at(self, offset: int) -> CursorView {
        CursorView { bytes: self.bytes, offset }
    }

    /// Where the cursor stands after a packet read: 188 bytes on, or at the
    /// end of the bytes where fewer are left.
    pub open spec fn window_end(self) -> int {
        if self.offset + PACKET_SIZE <= self.bytes.len() {
            self.offset + PACKET_SIZE
        } else {
            self.bytes.len() as int
        }
    }

    /// The bytes that a packet read takes.
    pub open spec fn window(self) -> Seq<u8> {
        self.bytes.subrange(self.offset, self.window_end())
    }

    /// The cursor after synchronising: on the first sync byte at or after
    /// its offset, or at the end of the bytes.
    pub open spec fn synced(self) -> CursorView {
        self.at(sync_offset(self.bytes, self.offset))
    }
}

/// Synchronising a cursor that has just been synchronised, without reading
/// the sync byte it stands on, leaves it where it is.
pub proof fn lemma_synced_twice(cursor: CursorView)
    requires
        cursor.wf(),
    ensures
        cursor.synced().wf(),
        cursor.synced().synced() == cursor.synced(),
{
    lemma_sync_idempotent(cursor.bytes, cursor.offset);
    lemma_sync_offset_is_first(cursor.bytes, cursor.offset);
}

/// A sequential, seekable byte source over a buffer in memory.
pub struct ByteCursor {
    data: Vec<u8>,
    position: usize,
}

impl View for ByteCursor {
    type V = CursorView;

    closed spec fn view(&self) -> CursorView {
        CursorView { bytes: self.data@, offset: self.position as int }
    }
}

impl ByteCursor {
    /// The position never passes the end of the buffer.
    #[verifier::type_invariant]
    pub open spec fn inv(&self) -> bool {
        self@.wf()
    }

    /// A cursor at the first byte of `data`.
    pub fn new(data: Vec<u8>) -> (cursor: ByteCursor)
        ensures
            cursor@ == (CursorView { bytes: data@, offset: 0 }),
    {
        ByteCursor { data, position: 0 }
    }

    /// The offset of the byte that is read next.
    pub fn position(&self) -> (position: usize)
        ensures
            position == self@.offset,
            self@.wf(),
    {
        proof {
            use_type_invariant(self);
        }
        self.position
    }

    /// The number of bytes that are left to read.
    pub fn remaining(&self) -> (left: usize)
        ensures
            left == self@.bytes.len() - self@.offset,
            self@.wf(),
    {
        proof {
            use_type_invariant(self);
        }
        self.data.len() - self.position
    }

    /// Reads one byte and steps over it; `None` at the end of the data,
    /// where the cursor stays.
    pub fn read_byte(&mut self) -> (byte: Option<u8>)
        ensures
            old(self)@.wf(),
            byte == (if old(self)@.offset < old(self)@.bytes.len() {
                Some(old(self)@.bytes[old(self)@.offset])
            } else {
                None
            }),
            final(self)@ == old(self)@.at(
                if byte.is_some() {
                    old(self)@.offset + 1
                } else {
                    old(self)@.offset
                },
            ),
    {
        proof {
            use_type_invariant(&*self);
        }
        if self.position < self.data.len() {
            let byte: u8 = self.data[self.position];
            self.position = self.position + 1;
            Some(byte)
        } else {
            None
        }
    }

    /// Moves the cursor back by one byte. At the first byte there is nothing
    /// to move back over: the cursor stays and `false` is returned.
    pub fn rewind(&mut self) -> (moved: bool)
        ensures
            old(self)@.wf(),
            moved == (old(self)@.offset > 0),
            final(self)@ == old(self)@.at(
                if moved {
                    old(self)@.offset - 1
                } else {
                    old(self)@.offset
                },
            ),
    {
        proof {
            use_type_invariant(&*self);
        }
        if self.position > 0 {
            self.position = self.position - 1;
            true
        } else {
            false
        }
    }

    /// Reads the bytes of one packet and steps over them: 188, or as many as
    /// are left.
    pub fn read_window(&mut self) -> (window: Vec<u8>)
        ensures
            old(self)@.wf(),
            window@ == old(self)@.window(),
            final(self)@ == old(self)@.at(old(self)@.window_end()),
    {
        proof {
            use_type_invariant(&*self);
        }
        let start: usize = self.position;
        let end: usize = if self.data.len() - start >= PACKET_SIZE {
            start + PACKET_SIZE
        } else {
            self.data.len()
        };
        let window: Vec<u8> = slice_to_vec(slice_subrange(self.data.as_slice(), start, end));
        self.position = end;
        window
    }

    /// Moves the cursor onto the first sync byte at or after its position.
    ///
    /// The bytes are read one at a time; the sync byte that ends the scan is
    /// stepped back over, so that it is the next byte read. Where no byte is
    /// left before one is found, the cursor is left at the end and
    /// [`SyncError::EndOfStream`] is returned. A source in memory does not
    /// fail.
    pub fn find_sync(&mut self) -> (result: Result<(), SyncError>)
        ensures
            final(self)@ == old(self)@.synced(),
            final(self)@.wf(),
            result == (if final(self)@.offset < final(self)@.bytes.len() {
                Ok::<(), SyncError>(())
            } else {
                Err::<(), SyncError>(SyncError::EndOfStream)
            }),
    {
        proof {
            use_type_invariant(&*self);
        }
        let ghost start = self@;
        let mut state: StreamState = StreamState::Seeking;
        loop
            invariant
                start == old(self)@,
                start.wf(),
                self@.wf(),
                self@.bytes == start.bytes,
                state.is_syncing(),
                state == StreamState::Seeking ==> start.offset <= self@.offset && sync_offset(
                    start.bytes,
                    self@.offset,
                ) == sync_offset(start.bytes, start.offset),
                state == StreamState::Rewinding ==> self@.offset >= 1 && self@.offset - 1
                    == sync_offset(start.bytes, start.offset) && start.bytes[self@.offset - 1]
                    == SYNC_BYTE,
            decreases
                3 * (start.bytes.len() - self@.offset) + (if state == StreamState::Seeking {
                    2int
                } else {
                    4int
                }),
        {
            let event: Event = match state.request() {
                Request::ReadByte => match self.read_byte() {
                    Some(byte) => Event::Byte(byte),
                    None => Event::EndOfData,
                },
                Request::Rewind => {
                    if self.rewind() {
                        Event::Rewound
                    } else {
                        Event::Failed
                    }
                },
                _ => unreached(),
            };
            match state.sync_step(event) {
                SyncProgress::Pending(next) => {
                    state = next;
                },
                SyncProgress::Done(outcome) => {
                    return outcome;
                },
            }
        }
    }
}

} // verus!
