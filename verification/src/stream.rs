//! The stream iterator over a byte source in memory.

use crate::cursor::{ByteCursor, CursorView};
use crate::machine::{DecodePolicy, Event, Step, StreamError, StreamState};
use crate::packet::{DecodeError, TransportPacket};
use crate::sync::{lemma_sync_offset_is_first, SyncError, PACKET_SIZE, SYNC_BYTE};
use vstd::prelude::*;

verus! {

/// What a stream stands for: its source, where the iteration stands, and
/// what it does after a malformed packet.
pub struct StreamView {
    pub source: CursorView,
    pub state: StreamState,
    pub policy: DecodePolicy,
}

impl StreamView {
    /// The source is well formed.
    pub open spec fn wf(self) -> bool {
        self.source.wf()
    }

    /// The outcome of the next pull.
    ///
    /// A stream that is over yields nothing. A seeking stream synchronises:
    /// at the end of the bytes it ends cleanly; else the window at the sync
    /// byte, 188 bytes or what is left, is decoded and the outcome handed
    /// on.
    pub open spec fn pull(self) -> Step {
        if self.state != StreamState::Seeking {
            Step { next: self.state, item: None }
        } else if self.source.synced().offset >= self.source.bytes.len() {
            Step::spec_after_sync(Err(SyncError::EndOfStream))
        } else {
            Step::spec_after_decode(
                self.policy,
                TransportPacket::decoded(self.source.synced().window()),
            )
        }
    }

    /// The stream after the next pull: the cursor stands behind the
    /// window that was read, or at the end of the bytes.
    pub open spec fn pulled(self) -> StreamView {
        StreamView {
            source: if self.state != StreamState::Seeking {
                self.source
            } else {
                self.source.at(self.source.synced().window_end())
            },
            state: self.pull().next,
            policy: self.policy,
        }
    }

    /// Everything that the stream yields from here on, in order.
    pub open spec fn items(self) -> Seq<Result<TransportPacket, StreamError>>
        decreases self.source.bytes.len() - self.source.offset,
        when self.wf()
        via Self::items_decreases
    {
        match self.pull().item {
            None => Seq::empty(),
            Some(item) => seq![item] + self.pulled().items(),
        }
    }

    #[via_fn]
    proof fn items_decreases(self) {
        lemma_sync_offset_is_first(self.source.bytes, self.source.offset);
    }
}

/// A pull leaves the source well formed and its bytes as they were, and
/// never moves the cursor back.
pub proof fn lemma_pulled_moves_forward(stream: StreamView)
    requires
        stream.wf(),
    ensures
        stream.pulled().wf(),
        stream.pulled().source.bytes == stream.source.bytes,
        stream.pulled().policy == stream.policy,
        stream.pulled().source.offset >= stream.source.offset,
        stream.pull().item is Some ==> stream.pulled().source.offset > stream.source.offset,
{
    lemma_sync_offset_is_first(stream.source.bytes, stream.source.offset);
}

/// From a sync byte with a whole packet behind it, a pull decodes exactly
/// the 188 bytes that start there and leaves the cursor on the byte that
/// follows them: no byte is passed over and none is read twice.
pub proof fn lemma_aligned_pull_takes_one_packet(stream: StreamView)
    requires
        stream.wf(),
        stream.state == StreamState::Seeking,
        stream.source.offset + PACKET_SIZE <= stream.source.bytes.len(),
        stream.source.bytes[stream.source.offset] == SYNC_BYTE,
    ensures
        stream.pull() == Step::spec_after_decode(
            stream.policy,
            TransportPacket::decoded(
                stream.source.bytes.subrange(
                    stream.source.offset,
                    stream.source.offset + PACKET_SIZE,
                ),
            ),
        ),
        stream.pulled().source.offset == stream.source.offset + PACKET_SIZE,
{
}

/// The window that a seeking stream decodes opens with the sync byte.
pub proof fn lemma_window_opens_with_sync(stream: StreamView)
    requires
        stream.wf(),
        stream.source.synced().offset < stream.source.bytes.len(),
    ensures
        stream.source.synced().window().len() >= 1,
        stream.source.synced().window()[0] == SYNC_BYTE,
{
    lemma_sync_offset_is_first(stream.source.bytes, stream.source.offset);
}

/// A stream over bytes in memory reports no failure of its source, and no
/// window without its sync byte: what it yields is a packet or one of the
/// other failures to decode one.
pub proof fn lemma_pull_reports_decoding_only(stream: StreamView)
    requires
        stream.wf(),
    ensures
        stream.pull().item matches Some(Err(error)) ==> error is Decode && error
            != StreamError::Decode(DecodeError::BadSync),
{
    lemma_sync_offset_is_first(stream.source.bytes, stream.source.offset);
}

/// A lazy, single-pass sequence of decoded packets over bytes in memory.
pub struct PacketStream {
    source: ByteCursor,
    state: StreamState,
    policy: DecodePolicy,
}

impl View for PacketStream {
    type V = StreamView;

    closed spec fn view(&self) -> StreamView {
        StreamView { source: self.source@, state: self.state, policy: self.policy }
    }
}

impl PacketStream {
    /// A stream that seeks from the first byte of `data`.
    pub fn new(data: Vec<u8>, policy: DecodePolicy) -> (stream: PacketStream)
        ensures
            stream@ == (StreamView {
                source: CursorView { bytes: data@, offset: 0 },
                state: StreamState::Seeking,
                policy,
            }),
            stream@.wf(),
    {
        PacketStream { source: ByteCursor::new(data), state: StreamState::Seeking, policy }
    }

    /// The offset of the byte that is read next.
    pub fn position(&self) -> (position: usize)
        ensures
            position == self@.source.offset,
            self@.wf(),
    {
        self.source.position()
    }

    /// Where the iteration stands: seeking, or over.
    pub fn state(&self) -> (state: StreamState)
        ensures
            state == self@.state,
            self@.wf(),
    {
        proof {
            use_type_invariant(&self.source);
        }
        self.state
    }

    /// Pulls the next item: a packet, the failure to decode one, or `None`
    /// once the stream is over.
    pub fn next_packet(&mut self) -> (item: Option<Result<TransportPacket, StreamError>>)
        ensures
            old(self)@.wf(),
            item == old(self)@.pull().item,
            final(self)@ == old(self)@.pulled(),
            final(self)@.wf(),
    {
        proof {
            use_type_invariant(&self.source);
        }
        match self.state {
            StreamState::Seeking => {},
            _ => {
                return None;
            },
        }
        let synced: Result<(), SyncError> = self.source.find_sync();
        let aligned: Step = Step::after_sync(synced);
        let step: Step = match aligned.next {
            StreamState::Decoding => {
                let window: Vec<u8> = self.source.read_window();
                aligned.next.step(self.policy, Event::Window(window.as_slice()))
            },
            _ => aligned,
        };
        self.state = step.next;
        step.item
    }

    /// Pulls until the stream is over and returns what it yielded.
    pub fn drain(&mut self) -> (items: Vec<Result<TransportPacket, StreamError>>)
        ensures
            old(self)@.wf(),
            items@ == old(self)@.items(),
            final(self)@.wf(),
            final(self)@.pull().item.is_none(),
    {
        proof {
            use_type_invariant(&self.source);
        }
        let mut items: Vec<Result<TransportPacket, StreamError>> = Vec::new();
        loop
            invariant
                old(self)@.wf(),
                self@.wf(),
                self@.source.bytes == old(self)@.source.bytes,
                items@ + self@.items() == old(self)@.items(),
            decreases self@.source.bytes.len() - self@.source.offset + (if self@.state
                == StreamState::Seeking {
                1int
            } else {
                0int
            }),
        {
            let ghost before = self@;
            proof {
                lemma_sync_offset_is_first(before.source.bytes, before.source.offset);
            }
            match self.next_packet() {
                Some(item) => {
                    items.push(item);
                    proof {
                        assert(before.items() == seq![item] + self@.items());
                        assert(items@ + self@.items() == old(self)@.items()) by {
                            assert((items@.drop_last() + seq![item]) + self@.items()
                                == items@.drop_last() + (seq![item] + self@.items()));
                            assert(items@ == items@.drop_last() + seq![item]);
                        }
                    }
                },
                None => {
                    proof {
                        assert(before.items() == Seq::<
                            Result<TransportPacket, StreamError>,
                        >::empty());
                        assert(items@ + Seq::<Result<TransportPacket, StreamError>>::empty()
                            == items@);
                    }
                    return items;
                },
            }
        }
    }
}

} // verus!
