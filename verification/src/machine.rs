//! The decisions of the stream iterator, free of input and output.
//!
//! A driver owns the byte source. It asks the state what to do, does it on
//! the source, and reports what came of it; the state machine decides what
//! follows and which item, if any, goes to the consumer.

use crate::packet::{DecodeError, TransportPacket};
use crate::sync::{IoFailure, SyncError, SYNC_BYTE};
use vstd::prelude::*;

verus! {

/// Where the iteration stands.
#[derive(Debug, Clone, Copy, PartialEq, Eq, Structural)]
pub enum StreamState {
    /// Scanning for a sync byte, one byte at a time.
    Seeking,
    /// A sync byte was read; the cursor has to move back over it.
    Rewinding,
    /// The cursor stands on a sync byte; a packet has to be read.
    Decoding,
    /// The source ended where a packet could have begun.
    Terminated,
    /// The iteration was ended by a failure.
    Fatal,
}

/// What the driver has to do on the byte source.
#[derive(Debug, Clone, Copy, PartialEq, Eq, Structural)]
pub enum Request {
    /// Read one byte.
    ReadByte,
    /// Move the cursor back by one byte.
    Rewind,
    /// Read 188 bytes, or as many as are left.
    ReadPacket,
    /// Nothing: the iteration is over.
    Stop,
}

/// What came of a request.
#[derive(Debug, Clone, Copy)]
pub enum Event<'a> {
    /// The byte that was read.
    Byte(u8),
    /// Nothing was left to read.
    EndOfData,
    /// The cursor was moved back.
    Rewound,
    /// The bytes that were read for a packet: fewer than 188 when the source
    /// ended early.
    Window(&'a [u8]),
    /// The source failed.
    Failed,
}

/// What the iteration does after a packet that does not decode.
#[derive(Debug, Clone, Copy, PartialEq, Eq, Structural)]
pub enum DecodePolicy {
    /// Report the packet and go on seeking behind it.
    Resync,
    /// Report the packet and end the iteration.
    Abort,
}

/// A failure that the consumer is told of.
#[derive(Debug, Clone, Copy, PartialEq, Eq, Structural)]
pub enum StreamError {
    /// The byte source failed.
    Io(IoFailure),
    /// A window did not decode.
    Decode(DecodeError),
}

/// How far synchronisation has come.
#[derive(Debug, Clone, Copy, PartialEq, Eq)]
pub enum SyncProgress {
    /// Not done: the state to go on from.
    Pending(StreamState),
    /// Done: the cursor stands on a sync byte, or the reason why it does not.
    Done(Result<(), SyncError>),
}

/// The outcome of one decision: the state that follows and the item, if
/// any, that goes to the consumer.
#[derive(Debug, Clone, Copy, PartialEq, Eq)]
pub struct Step {
    pub next: StreamState,
    pub item: Option<Result<TransportPacket, StreamError>>,
}

impl Step {
    /// How the iteration goes on once synchronisation has ended: aligned, a
    /// packet is read; at the end of the stream the iteration ends cleanly;
    /// a failure of the source is reported once and ends it.
    pub open spec fn spec_after_sync(outcome: Result<(), SyncError>) -> Step {
        match outcome {
            Ok(_) => Step { next: StreamState::Decoding, item: None },
            Err(SyncError::EndOfStream) => Step { next: StreamState::Terminated, item: None },
            Err(SyncError::Io(failure)) => Step {
                next: StreamState::Fatal,
                item: Some(Err(StreamError::Io(failure))),
            },
        }
    }

    /// How the iteration goes on once a window was decoded: every outcome is
    /// handed to the consumer; a packet, and under [`DecodePolicy::Resync`] a
    /// malformed one too, is followed by seeking; a short window always ends
    /// the iteration, and so does a malformed packet under
    /// [`DecodePolicy::Abort`].
    pub open spec fn spec_after_decode(
        policy: DecodePolicy,
        decoded: Result<TransportPacket, DecodeError>,
    ) -> Step {
        match decoded {
            Ok(packet) => Step { next: StreamState::Seeking, item: Some(Ok(packet)) },
            Err(error) => Step {
                next: if error != DecodeError::ShortBuffer && policy == DecodePolicy::Resync {
                    StreamState::Seeking
                } else {
                    StreamState::Fatal
                },
                item: Some(Err(StreamError::Decode(error))),
            },
        }
    }

    /// Decides how the iteration goes on after synchronisation.
    pub fn after_sync(outcome: Result<(), SyncError>) -> (step: Step)
        ensures
            step == Self::spec_after_sync(outcome),
    {
        match outcome {
            Ok(_) => Step { next: StreamState::Decoding, item: None },
            Err(SyncError::EndOfStream) => Step { next: StreamState::Terminated, item: None },
            Err(SyncError::Io(failure)) => Step {
                next: StreamState::Fatal,
                item: Some(Err(StreamError::Io(failure))),
            },
        }
    }

    /// Decides how the iteration goes on after a window was decoded.
    pub fn after_decode(
        policy: DecodePolicy,
        decoded: Result<TransportPacket, DecodeError>,
    ) -> (step: Step)
        ensures
            step == Self::spec_after_decode(policy, decoded),
    {
        match decoded {
            Ok(packet) => Step { next: StreamState::Seeking, item: Some(Ok(packet)) },
            Err(DecodeError::ShortBuffer) => Step {
                next: StreamState::Fatal,
                item: Some(Err(StreamError::Decode(DecodeError::ShortBuffer))),
            },
            Err(error) => {
                let next: StreamState = match policy {
                    DecodePolicy::Resync => StreamState::Seeking,
                    DecodePolicy::Abort => StreamState::Fatal,
                };
                Step { next, item: Some(Err(StreamError::Decode(error))) }
            },
        }
    }
}

impl StreamState {
    /// Whether the iteration is over.
    pub open spec fn is_terminal(self) -> bool {
        self == StreamState::Terminated || self == StreamState::Fatal
    }

    /// What the state asks of the driver.
    pub open spec fn spec_request(self) -> Request {
        match self {
            StreamState::Seeking => Request::ReadByte,
            StreamState::Rewinding => Request::Rewind,
            StreamState::Decoding => Request::ReadPacket,
            StreamState::Terminated => Request::Stop,
            StreamState::Fatal => Request::Stop,
        }
    }

    /// Whether the state belongs to synchronisation.
    pub open spec fn is_syncing(self) -> bool {
        self == StreamState::Seeking || self == StreamState::Rewinding
    }

    /// The synchroniser's decision on an event.
    ///
    /// While seeking, a sync byte asks for a rewind and any other byte for
    /// the next one; the end of the data and a failed read end
    /// synchronisation. The rewind ends it too, aligned if it was done. An
    /// event that answers no request of the state changes nothing.
    pub open spec fn spec_sync_step(self, event: Event) -> SyncProgress {
        match (self, event) {
            (StreamState::Seeking, Event::Byte(byte)) => SyncProgress::Pending(
                if byte == SYNC_BYTE {
                    StreamState::Rewinding
                } else {
                    StreamState::Seeking
                },
            ),
            (StreamState::Seeking, Event::EndOfData) => SyncProgress::Done(
                Err(SyncError::EndOfStream),
            ),
            (StreamState::Seeking, Event::Failed) => SyncProgress::Done(
                Err(SyncError::Io(IoFailure::Read)),
            ),
            (StreamState::Rewinding, Event::Rewound) => SyncProgress::Done(Ok(())),
            (StreamState::Rewinding, Event::Failed) => SyncProgress::Done(
                Err(SyncError::Io(IoFailure::Seek)),
            ),
            _ => SyncProgress::Pending(self),
        }
    }

    /// The decision that an event leads to.
    ///
    /// During synchronisation the synchroniser decides, and the iteration
    /// goes on from its outcome. A window, or the end of the data where a
    /// window was asked for, is decoded; a failed read ends the iteration.
    /// An event that answers no request of the state changes nothing and
    /// yields nothing.
    pub open spec fn spec_step(self, policy: DecodePolicy, event: Event) -> Step {
        match (self, event) {
            (StreamState::Seeking, _) | (StreamState::Rewinding, _) => match self.spec_sync_step(
                event,
            ) {
                SyncProgress::Pending(next) => Step { next, item: None },
                SyncProgress::Done(outcome) => Step::spec_after_sync(outcome),
            },
            (StreamState::Decoding, Event::Window(window)) => Step::spec_after_decode(
                policy,
                TransportPacket::decoded(window@),
            ),
            (StreamState::Decoding, Event::EndOfData) => Step::spec_after_decode(
                policy,
                Err(DecodeError::ShortBuffer),
            ),
            (StreamState::Decoding, Event::Failed) => Step {
                next: StreamState::Fatal,
                item: Some(Err(StreamError::Io(IoFailure::Read))),
            },
            _ => Step { next: self, item: None },
        }
    }

    /// Tells the driver what to do on the byte source.
    pub fn request(&self) -> (request: Request)
        ensures
            request == self.spec_request(),
    {
        match self {
            StreamState::Seeking => Request::ReadByte,
            StreamState::Rewinding => Request::Rewind,
            StreamState::Decoding => Request::ReadPacket,
            StreamState::Terminated => Request::Stop,
            StreamState::Fatal => Request::Stop,
        }
    }

    /// Takes what came of a request made during synchronisation and decides
    /// how synchronisation goes on.
    pub fn sync_step(self, event: Event) -> (progress: SyncProgress)
        ensures
            progress == self.spec_sync_step(event),
    {
        match self {
            StreamState::Seeking => match event {
                Event::Byte(byte) => {
                    if byte == SYNC_BYTE {
                        SyncProgress::Pending(StreamState::Rewinding)
                    } else {
                        SyncProgress::Pending(StreamState::Seeking)
                    }
                },
                Event::EndOfData => SyncProgress::Done(Err(SyncError::EndOfStream)),
                Event::Failed => SyncProgress::Done(Err(SyncError::Io(IoFailure::Read))),
                _ => SyncProgress::Pending(self),
            },
            StreamState::Rewinding => match event {
                Event::Rewound => SyncProgress::Done(Ok(())),
                Event::Failed => SyncProgress::Done(Err(SyncError::Io(IoFailure::Seek))),
                _ => SyncProgress::Pending(self),
            },
            _ => SyncProgress::Pending(self),
        }
    }

    /// Takes what came of the request and decides what follows.
    pub fn step(self, policy: DecodePolicy, event: Event) -> (step: Step)
        ensures
            step == self.spec_step(policy, event),
    {
        match self {
            StreamState::Seeking | StreamState::Rewinding => match self.sync_step(event) {
                SyncProgress::Pending(next) => Step { next, item: None },
                SyncProgress::Done(outcome) => Step::after_sync(outcome),
            },
            StreamState::Decoding => match event {
                Event::Window(window) => Step::after_decode(policy, TransportPacket::new(window)),
                Event::EndOfData => Step::after_decode(policy, Err(DecodeError::ShortBuffer)),
                Event::Failed => Step {
                    next: StreamState::Fatal,
                    item: Some(Err(StreamError::Io(IoFailure::Read))),
                },
                _ => Step { next: self, item: None },
            },
            _ => Step { next: self, item: None },
        }
    }
}

/// Once the iteration is over it stays over: no event changes the state or
/// yields an item.
pub proof fn lemma_terminal_absorbs(state: StreamState, policy: DecodePolicy, event: Event)
    requires
        state.is_terminal(),
    ensures
        state.spec_step(policy, event) == (Step { next: state, item: None }),
{
}

/// The iteration ends cleanly only without an item, and is ended by a
/// failure only together with the error that ended it.
pub proof fn lemma_ends_are_told(state: StreamState, policy: DecodePolicy, event: Event)
    requires
        !state.is_terminal(),
    ensures
        state.spec_step(policy, event).next == StreamState::Terminated ==> state.spec_step(
            policy,
            event,
        ).item is None,
        state.spec_step(policy, event).next == StreamState::Fatal ==> (state.spec_step(
            policy,
            event,
        ).item matches Some(Err(_))),
        state.spec_step(policy, event).item matches Some(Ok(_)) ==> state.spec_step(
            policy,
            event,
        ).next == StreamState::Seeking,
{
}

} // verus!
