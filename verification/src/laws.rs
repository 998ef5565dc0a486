use vstd::prelude::*;

use crate::relay::{ActionModel, EndReason, EventModel, SessionModel, MAX_CHUNK};
use crate::roles::{listener_next, ListenerAction, ListenerEvent, ListenerState};

verus! {

/// The session state reached from a fresh session by a sequence of events,
/// oldest first.
pub open spec fn run_session(events: Seq<EventModel>) -> SessionModel
    decreases events.len(),
{
    if events.len() == 0 {
        SessionModel::init()
    } else {
        run_session(events.drop_last()).step(events.last())
    }
}

/// The payloads of the nonempty network reads among a sequence of events, in
/// order: the chunks the network side offered for forwarding.
pub open spec fn net_read_payloads(events: Seq<EventModel>) -> Seq<Seq<u8>>
    decreases events.len(),
{
    if events.len() == 0 {
        Seq::empty()
    } else {
        let rest = net_read_payloads(events.drop_last());
        match events.last() {
            EventModel::NetRead(data) => if data.len() > 0 {
                rest.push(data)
            } else {
                rest
            },
            _ => rest,
        }
    }
}

/// The bytes the network side sent into the session: the concatenation of
/// all its nonempty reads.
pub open spec fn net_bytes_read(events: Seq<EventModel>) -> Seq<u8> {
    net_read_payloads(events).flatten()
}

/// The payloads of the framed-channel messages among a sequence of events,
/// in order.
pub open spec fn chan_msg_payloads(events: Seq<EventModel>) -> Seq<Seq<u8>>
    decreases events.len(),
{
    if events.len() == 0 {
        Seq::empty()
    } else {
        let rest = chan_msg_payloads(events.drop_last());
        match events.last() {
            EventModel::ChanMsg(msg) => rest.push(msg),
            _ => rest,
        }
    }
}

/// Whether every event of the sequence reaches the session while it is still
/// active: no event arrives at an already ended session.
pub open spec fn active_throughout(events: Seq<EventModel>) -> bool {
    forall|i: int|
        0 <= i < events.len() ==> (#[trigger] run_session(events.take(i))).end is None
}

/// Whether every network read of the sequence fits the read buffer, as every
/// read into a buffer of `MAX_CHUNK` bytes does.
pub open spec fn read_within_buffer(event: EventModel) -> bool {
    event matches EventModel::NetRead(data) ==> data.len() <= MAX_CHUNK as nat
}

/// Whether all network reads of the sequence fit the read buffer.
pub open spec fn reads_bounded(events: Seq<EventModel>) -> bool {
    forall|i: int| 0 <= i < events.len() ==> read_within_buffer(#[trigger] events[i])
}

/// Every byte sequence sent into the network read side while the session is
/// active is forwarded to the framed channel exactly: the forwarded messages
/// are the nonempty reads themselves, in order — no chunk dropped, duplicated
/// or reordered — so their concatenation is exactly the bytes read.
pub proof fn lemma_net_to_chan_exact(events: Seq<EventModel>)
    requires
        active_throughout(events),
    ensures
        run_session(events).forwarded == net_read_payloads(events),
        run_session(events).forwarded.flatten() == net_bytes_read(events),
    decreases events.len(),
{
    if events.len() == 0 {
        assert(run_session(events).forwarded =~= net_read_payloads(events));
    } else {
        let prefix = events.drop_last();
        assert forall|i: int|
            0 <= i < prefix.len() implies (#[trigger] run_session(prefix.take(i))).end is None by {
            assert(prefix.take(i) =~= events.take(i));
            assert(run_session(events.take(i)).end is None);
        }
        lemma_net_to_chan_exact(prefix);
        assert(events.take(events.len() - 1) =~= prefix);
        assert(run_session(prefix).end is None);
        assert(run_session(events).forwarded =~= net_read_payloads(events));
    }
}

/// Every chunk offered by the network side is nonempty and fits the read
/// buffer, provided each read did: with an 8192-byte buffer, every forwarded
/// message carries between 1 and 8192 bytes.
pub proof fn lemma_forwarded_chunks_bounded(events: Seq<EventModel>)
    requires
        reads_bounded(events),
    ensures
        forall|j: int|
            0 <= j < net_read_payloads(events).len() ==> 0 < (#[trigger] net_read_payloads(
                events,
            )[j]).len() <= MAX_CHUNK as nat,
    decreases events.len(),
{
    if events.len() == 0 {
    } else {
        let prefix = events.drop_last();
        assert forall|i: int| 0 <= i < prefix.len() implies read_within_buffer(
            #[trigger] prefix[i],
        ) by {
            assert(prefix[i] == events[i]);
            assert(read_within_buffer(events[i]));
        }
        lemma_forwarded_chunks_bounded(prefix);
        assert(read_within_buffer(events[events.len() - 1]));
        let before = net_read_payloads(prefix);
        let after = net_read_payloads(events);
        assert forall|j: int| 0 <= j < after.len() implies 0 < (#[trigger] after[j]).len()
            <= MAX_CHUNK as nat by {
            match events.last() {
                EventModel::NetRead(data) => {
                    if data.len() > 0 {
                        assert(after == before.push(data));
                        if j < before.len() {
                            assert(after[j] == before[j]);
                            assert(0 < before[j].len() <= MAX_CHUNK as nat);
                        } else {
                            assert(after[j] == data);
                        }
                    } else {
                        assert(after == before);
                        assert(0 < before[j].len() <= MAX_CHUNK as nat);
                    }
                },
                _ => {
                    assert(after == before);
                    assert(0 < before[j].len() <= MAX_CHUNK as nat);
                },
            }
        }
    }
}

/// The bytes written to the network side while the session is active are
/// exactly the concatenation of the framed channel's message payloads, in
/// order.
pub proof fn lemma_chan_to_net_exact(events: Seq<EventModel>)
    requires
        active_throughout(events),
    ensures
        run_session(events).written == chan_msg_payloads(events).flatten(),
    decreases events.len(),
{
    if events.len() == 0 {
        assert(run_session(events).written =~= chan_msg_payloads(events).flatten());
    } else {
        let prefix = events.drop_last();
        assert forall|i: int|
            0 <= i < prefix.len() implies (#[trigger] run_session(prefix.take(i))).end is None by {
            assert(prefix.take(i) =~= events.take(i));
            assert(run_session(events.take(i)).end is None);
        }
        lemma_chan_to_net_exact(prefix);
        assert(events.take(events.len() - 1) =~= prefix);
        assert(run_session(prefix).end is None);
        match events.last() {
            EventModel::ChanMsg(msg) => {
                chan_msg_payloads(prefix).lemma_flatten_push(msg);
                assert(run_session(events).written =~= chan_msg_payloads(events).flatten());
            },
            _ => {
                assert(run_session(events).written =~= chan_msg_payloads(events).flatten());
            },
        }
    }
}

/// A zero-length network read — the peer's orderly close — ends an active
/// session at once, with the close as the reason and without forwarding any
/// final chunk.
pub proof fn lemma_zero_read_ends_session(state: SessionModel)
    requires
        state.end is None,
    ensures
        state.step(EventModel::NetRead(Seq::empty())).end == Some(EndReason::NetClosed),
        state.step(EventModel::NetRead(Seq::empty())).forwarded == state.forwarded,
        state.action(EventModel::NetRead(Seq::empty())) == ActionModel::Idle,
{
}

/// An ended session absorbs every later event: nothing more is forwarded in
/// either direction and the state, the end reason included, never changes.
pub proof fn lemma_ended_session_discards(state: SessionModel, event: EventModel)
    requires
        state.end is Some,
    ensures
        state.step(event) == state,
        state.action(event) == ActionModel::Idle,
{
}

/// If the network side closes while a framed-channel receive is still
/// pending, the session ends by the close; a message that arrives after it
/// is discarded: it is not written to the network and leaves the session,
/// its end reason included, unchanged.
pub proof fn lemma_close_abandons_pending_message(state: SessionModel, msg: Seq<u8>)
    requires
        state.end is None,
    ensures
        ({
            let closed = state.step(EventModel::NetRead(Seq::empty()));
            &&& closed.end == Some(EndReason::NetClosed)
            &&& closed.step(EventModel::ChanMsg(msg)) == closed
            &&& closed.step(EventModel::ChanMsg(msg)).written == state.written
            &&& closed.action(EventModel::ChanMsg(msg)) == ActionModel::Idle
        }),
{
}

/// The listener accepts connections indefinitely: after a session ends, for
/// any reason at all — an orderly close, an exhausted channel, or a failure
/// on either side — the role returns to accepting and its next action is to
/// accept another connection.
pub proof fn lemma_listener_always_reaccepts(reason: EndReason)
    ensures
        listener_next(ListenerState::Bridging, ListenerEvent::SessionEnded(reason)) == (
            ListenerState::Accepting,
            ListenerAction::Accept,
        ),
{
}

} // verus!
