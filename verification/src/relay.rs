use vstd::prelude::*;
use vstd::slice::{slice_subrange, slice_to_vec};

verus! {

/// Largest number of bytes carried by one forwarded chunk: the size of the
/// buffer the network read loop reads into.
pub const MAX_CHUNK: usize = 8192;

/// Why a relay session came to its end: which direction finished first, and
/// whether it finished normally or with a failure.
#[derive(Clone, Copy, Debug, PartialEq, Eq, Structural)]
pub enum EndReason {
    /// The network peer closed its write side: a zero-length read.
    NetClosed,
    /// Reading from the network failed.
    NetReadError,
    /// Writing a message's bytes to the network failed.
    NetWriteError,
    /// The framed channel's inbound sequence ended normally.
    ChanEnded,
    /// Receiving the next framed message failed.
    ChanRecvError,
    /// Sending a chunk as a framed message failed.
    ChanSendError,
}

/// One observation handed to a relay session by the code that drives its I/O.
#[derive(Debug, PartialEq, Eq)]
pub enum SessionEvent {
    /// The network read half yielded these bytes. An empty read is the peer's
    /// orderly close.
    NetRead(Vec<u8>),
    /// Reading from the network failed.
    NetReadFailed,
    /// Writing earlier returned bytes to the network failed.
    NetWriteFailed,
    /// The framed channel yielded one message with this payload.
    ChanMsg(Vec<u8>),
    /// The framed channel's inbound sequence ended normally.
    ChanClosed,
    /// Receiving the next message from the framed channel failed.
    ChanRecvFailed,
    /// Sending a chunk as a framed message failed.
    ChanSendFailed,
}

/// What the driving code must do next with an event's payload.
#[derive(Debug, PartialEq, Eq)]
pub enum SessionAction {
    /// Send these bytes as one framed message, then report how the send went.
    ForwardChunk(Vec<u8>),
    /// Write all of these bytes to the network write half, then report how the
    /// write went.
    WriteNet(Vec<u8>),
    /// Nothing to do: the event ended the session or arrived after its end.
    Idle,
}

/// The mathematical form of a `SessionEvent`.
#[verifier::ext_equal]
pub enum EventModel {
    NetRead(Seq<u8>),
    NetReadFailed,
    NetWriteFailed,
    ChanMsg(Seq<u8>),
    ChanClosed,
    ChanRecvFailed,
    ChanSendFailed,
}

/// The mathematical form of a `SessionAction`.
#[verifier::ext_equal]
pub enum ActionModel {
    ForwardChunk(Seq<u8>),
    WriteNet(Seq<u8>),
    Idle,
}

impl View for SessionEvent {
    type V = EventModel;

    open spec fn view(&self) -> EventModel {
        match self {
            SessionEvent::NetRead(data) => EventModel::NetRead(data@),
            SessionEvent::NetReadFailed => EventModel::NetReadFailed,
            SessionEvent::NetWriteFailed => EventModel::NetWriteFailed,
            SessionEvent::ChanMsg(msg) => EventModel::ChanMsg(msg@),
            SessionEvent::ChanClosed => EventModel::ChanClosed,
            SessionEvent::ChanRecvFailed => EventModel::ChanRecvFailed,
            SessionEvent::ChanSendFailed => EventModel::ChanSendFailed,
        }
    }
}

impl View for SessionAction {
    type V = ActionModel;

    open spec fn view(&self) -> ActionModel {
        match self {
            SessionAction::ForwardChunk(data) => ActionModel::ForwardChunk(data@),
            SessionAction::WriteNet(data) => ActionModel::WriteNet(data@),
            SessionAction::Idle => ActionModel::Idle,
        }
    }
}

/// The mathematical state of one relay session: whether it has ended and why,
/// the messages forwarded to the framed channel so far, and the bytes written
/// to the network so far.
#[verifier::ext_equal]
pub struct SessionModel {
    /// `None` while the session is active; the reason once it has ended.
    pub end: Option<EndReason>,
    /// The payloads forwarded to the framed channel, one message per chunk
    /// read from the network, oldest first.
    pub forwarded: Seq<Seq<u8>>,
    /// All bytes written to the network write half, oldest first.
    pub written: Seq<u8>,
}

impl SessionModel {
    /// A session that has just been paired with a fresh connection and channel.
    pub open spec fn init() -> SessionModel {
        SessionModel { end: None, forwarded: Seq::empty(), written: Seq::empty() }
    }

    /// The state after one event. An ended session absorbs every event
    /// unchanged; an active one forwards data reads, concatenates channel
    /// messages onto the written stream, and ends on a close, an end of the
    /// message sequence, or a failure.
    pub open spec fn step(self, event: EventModel) -> SessionModel {
        if self.end is Some {
            self
        } else {
            match event {
                EventModel::NetRead(data) => if data.len() == 0 {
                    SessionModel { end: Some(EndReason::NetClosed), ..self }
                } else {
                    SessionModel { forwarded: self.forwarded.push(data), ..self }
                },
                EventModel::NetReadFailed => SessionModel {
                    end: Some(EndReason::NetReadError),
                    ..self
                },
                EventModel::NetWriteFailed => SessionModel {
                    end: Some(EndReason::NetWriteError),
                    ..self
                },
                EventModel::ChanMsg(msg) => SessionModel { written: self.written + msg, ..self },
                EventModel::ChanClosed => SessionModel {
                    end: Some(EndReason::ChanEnded),
                    ..self
                },
                EventModel::ChanRecvFailed => SessionModel {
                    end: Some(EndReason::ChanRecvError),
                    ..self
                },
                EventModel::ChanSendFailed => SessionModel {
                    end: Some(EndReason::ChanSendError),
                    ..self
                },
            }
        }
    }

    /// The action an event calls for. Only a nonempty data read and a channel
    /// message ask the driver to move bytes; everything else, and any event
    /// after the session's end, asks for nothing.
    pub open spec fn action(self, event: EventModel) -> ActionModel {
        if self.end is Some {
            ActionModel::Idle
        } else {
            match event {
                EventModel::NetRead(data) => if data.len() == 0 {
                    ActionModel::Idle
                } else {
                    ActionModel::ForwardChunk(data)
                },
                EventModel::ChanMsg(msg) => ActionModel::WriteNet(msg),
                _ => ActionModel::Idle,
            }
        }
    }
}

/// One relay session: the pairing of one network connection with one framed
/// channel, bridged until either direction ends. The driving code performs
/// the reads, writes, sends and receives, and hands each outcome to `step`,
/// which decides everything: what to move where, and when the session is over.
pub struct Session {
    end: Option<EndReason>,
    forwarded: Ghost<Seq<Seq<u8>>>,
    written: Ghost<Seq<u8>>,
}

impl View for Session {
    type V = SessionModel;

    closed spec fn view(&self) -> SessionModel {
        SessionModel { end: self.end, forwarded: self.forwarded@, written: self.written@ }
    }
}

impl Session {
    /// Start a session over a freshly paired connection and channel.
    pub fn new() -> (session: Session)
        ensures
            session@ == SessionModel::init(),
    {
        Session { end: None, forwarded: Ghost(Seq::empty()), written: Ghost(Seq::empty()) }
    }

    /// Whether the session is still bridging: no direction has ended yet.
    pub fn is_active(&self) -> (active: bool)
        ensures
            active == (self@.end is None),
    {
        self.end.is_none()
    }

    /// The reason the session ended, or `None` while it is active.
    pub fn end_reason(&self) -> (reason: Option<EndReason>)
        ensures
            reason == self@.end,
    {
        self.end
    }

    /// Feed one event into the session. The new state is exactly
    /// `SessionModel::step` of the old, and the returned action exactly
    /// `SessionModel::action`: a nonempty read of N bytes is forwarded as one
    /// whole chunk of those N bytes, a channel message is written whole, a
    /// zero-length read ends the session with nothing forwarded, and an event
    /// arriving after the end changes nothing.
    pub fn step(&mut self, event: SessionEvent) -> (action: SessionAction)
        ensures
            final(self)@ == old(self)@.step(event@),
            action@ == old(self)@.action(event@),
    {
        if self.end.is_some() {
            return SessionAction::Idle;
        }
        match event {
            SessionEvent::NetRead(data) => {
                if data.len() == 0 {
                    self.end = Some(EndReason::NetClosed);
                    SessionAction::Idle
                } else {
                    self.forwarded = Ghost(self.forwarded@.push(data@));
                    SessionAction::ForwardChunk(data)
                }
            },
            SessionEvent::NetReadFailed => {
                self.end = Some(EndReason::NetReadError);
                SessionAction::Idle
            },
            SessionEvent::NetWriteFailed => {
                self.end = Some(EndReason::NetWriteError);
                SessionAction::Idle
            },
            SessionEvent::ChanMsg(msg) => {
                self.written = Ghost(self.written@ + msg@);
                SessionAction::WriteNet(msg)
            },
            SessionEvent::ChanClosed => {
                self.end = Some(EndReason::ChanEnded);
                SessionAction::Idle
            },
            SessionEvent::ChanRecvFailed => {
                self.end = Some(EndReason::ChanRecvError);
                SessionAction::Idle
            },
            SessionEvent::ChanSendFailed => {
                self.end = Some(EndReason::ChanSendError);
                SessionAction::Idle
            },
        }
    }
}

/// The byte sequences held by a sequence of byte vectors.
pub open spec fn views_of(chunks: Seq<Vec<u8>>) -> Seq<Seq<u8>> {
    chunks.map_values(|chunk: Vec<u8>| chunk@)
}

/// Cut a byte sequence the way the network read loop's buffer does: every
/// chunk but the last carries exactly `MAX_CHUNK` bytes, the last carries
/// what remains, and the chunks concatenate back to the input — so chunk
/// boundaries fall at multiples of `MAX_CHUNK`, except possibly the final
/// chunk's.
pub fn chunk_bytes(data: &[u8]) -> (chunks: Vec<Vec<u8>>)
    ensures
        views_of(chunks@).flatten() == data@,
        forall|k: int|
            0 <= k < chunks@.len() ==> 0 < (#[trigger] chunks@[k]@).len() <= MAX_CHUNK as nat,
        forall|k: int|
            0 <= k < chunks@.len() - 1 ==> (#[trigger] chunks@[k]@).len() == MAX_CHUNK as nat,
        chunks@.len() == 0 <==> data@.len() == 0,
{
    let mut chunks: Vec<Vec<u8>> = Vec::new();
    let mut start: usize = 0;
    while start < data.len()
        invariant
            start <= data.len(),
            views_of(chunks@).flatten() == data@.take(start as int),
            forall|k: int|
                0 <= k < chunks@.len() ==> 0 < (#[trigger] chunks@[k]@).len() <= MAX_CHUNK as nat,
            start < data.len() ==> forall|k: int|
                0 <= k < chunks@.len() ==> (#[trigger] chunks@[k]@).len() == MAX_CHUNK as nat,
            forall|k: int|
                0 <= k < chunks@.len() - 1 ==> (#[trigger] chunks@[k]@).len() == MAX_CHUNK as nat,
            chunks@.len() == 0 <==> start == 0,
        decreases data.len() - start,
    {
        let stop: usize = if data.len() - start >= MAX_CHUNK {
            start + MAX_CHUNK
        } else {
            data.len()
        };
        let chunk = slice_to_vec(slice_subrange(data, start, stop));
        proof {
            let held = views_of(chunks@);
            held.lemma_flatten_push(chunk@);
            assert(views_of(chunks@.push(chunk)) =~= held.push(chunk@));
            assert(data@.take(stop as int) =~= data@.take(start as int) + data@.subrange(
                start as int,
                stop as int,
            ));
        }
        chunks.push(chunk);
        start = stop;
    }
    proof {
        assert(data@.take(start as int) =~= data@);
    }
    chunks
}

} // verus!
