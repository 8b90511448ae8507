//! What holds of the notification protocol over any course of inputs.

use vstd::prelude::*;
use crate::protocol::notification::handle::{
    ends_opened, lemma_open_iff_ends_opened, open_peers_after, open_peers_after_all,
};
use crate::protocol::notification::types::{
    NotificationCommandView, NotificationEventView, ValidationResult,
};
use crate::protocol::notification::{NotificationInputView, NotificationProtocolView, PeerState};

verus! {

/// The state after `inputs`, taken in their order from `state`, and the
/// events that were reported to the application on the way.
pub open spec fn run(state: NotificationProtocolView, inputs: Seq<NotificationInputView>) -> (
    NotificationProtocolView,
    Seq<NotificationEventView>,
)
    decreases inputs.len(),
{
    if inputs.len() == 0 {
        (state, Seq::empty())
    } else {
        let (before, events) = run(state, inputs.drop_last());
        let (after, outcome) = before.step(inputs.last());
        (
            after,
            match outcome.event {
                Some(event) => events.push(event),
                None => events,
            },
        )
    }
}

/// The command by which the application accepts the inbound substream of
/// `peer`.
pub open spec fn accepts(peer: Seq<u8>) -> NotificationInputView {
    NotificationInputView::Command(
        NotificationCommandView::SubstreamValidated { peer, result: ValidationResult::Accept },
    )
}

/// The command by which the application rejects the inbound substream of
/// `peer`.
pub open spec fn rejects(peer: Seq<u8>) -> NotificationInputView {
    NotificationInputView::Command(
        NotificationCommandView::SubstreamValidated { peer, result: ValidationResult::Reject },
    )
}

/// The command by which the application asks for a substream to `peer`.
pub open spec fn dials(peer: Seq<u8>) -> NotificationInputView {
    NotificationInputView::Command(NotificationCommandView::OpenSubstream { peer })
}

/// A new handshake changes no stream: it is the handshake of the substreams
/// that are opened after it, and every peer stays where it is.
pub proof fn lemma_set_handshake_keeps_streams(state: NotificationProtocolView, handshake: Seq<u8>)
    ensures
        state.step(
            NotificationInputView::Command(NotificationCommandView::SetHandshake { handshake }),
        ).0 == (NotificationProtocolView { handshake, ..state }),
        state.step(
            NotificationInputView::Command(NotificationCommandView::SetHandshake { handshake }),
        ).1.event is None,
        state.step(
            NotificationInputView::Command(NotificationCommandView::SetHandshake { handshake }),
        ).1.action is None,
{
}

/// One input changes the set of open streams as the event that it reports
/// changes the table of the application's handle, and leaves the set as it
/// is where it reports none. A failure to open is reported only of a stream
/// that is not open, so that it takes nothing out of the table.
pub proof fn lemma_step_matches_handle(
    state: NotificationProtocolView,
    input: NotificationInputView,
)
    ensures
        state.step(input).0.open_peers() == match state.step(input).1.event {
            Some(event) => open_peers_after(state.open_peers(), event),
            None => state.open_peers(),
        },
        forall|peer: Seq<u8>|
            state.step(input).1.event matches Some(event) && event.is_open_failure(peer)
                ==> !state.open_peers().contains(peer),
{
    let after = state.step(input).0;
    let expected = match state.step(input).1.event {
        Some(event) => open_peers_after(state.open_peers(), event),
        None => state.open_peers(),
    };
    assert forall|peer: Seq<u8>| after.open_peers().contains(peer) == expected.contains(peer) by {
        assert(after.open_peers().contains(peer) == after.is_in(peer, PeerState::Open));
        assert(state.open_peers().contains(peer) == state.is_in(peer, PeerState::Open));
    }
    assert(after.open_peers() =~= expected);
    assert forall|peer: Seq<u8>|
        state.step(input).1.event matches Some(event) && event.is_open_failure(
            peer,
        ) implies !state.open_peers().contains(peer) by {
        assert(state.open_peers().contains(peer) == state.is_in(peer, PeerState::Open));
    }
}

/// A handle that agrees with the protocol on which streams are open still
/// agrees with it after any inputs, when it has taken in the events that
/// they led to: its table holds the peers with an open stream.
pub proof fn lemma_run_matches_handle(
    state: NotificationProtocolView,
    inputs: Seq<NotificationInputView>,
)
    ensures
        open_peers_after_all(state.open_peers(), run(state, inputs).1) == run(
            state,
            inputs,
        ).0.open_peers(),
    decreases inputs.len(),
{
    if inputs.len() > 0 {
        let (before, events) = run(state, inputs.drop_last());
        lemma_run_matches_handle(state, inputs.drop_last());
        lemma_step_matches_handle(before, inputs.last());
        match before.step(inputs.last()).1.event {
            Some(event) => {
                assert(events.push(event).drop_last() =~= events);
            },
            None => {},
        }
    }
}

/// The stream of a peer is open exactly if the last word of the reported
/// events on it is that it was opened, with no report after that of its
/// closing or of a failure to open it. So the table of the application's
/// handle, which follows the events, holds a peer exactly then.
pub proof fn lemma_open_iff_last_reported_opened(
    state: NotificationProtocolView,
    inputs: Seq<NotificationInputView>,
    peer: Seq<u8>,
)
    requires
        state.open_peers() == Set::<Seq<u8>>::empty(),
    ensures
        run(state, inputs).0.is_in(peer, PeerState::Open) <==> ends_opened(
            run(state, inputs).1,
            peer,
        ),
        open_peers_after_all(Set::empty(), run(state, inputs).1).contains(peer) <==> ends_opened(
            run(state, inputs).1,
            peer,
        ),
{
    lemma_run_matches_handle(state, inputs);
    lemma_open_iff_ends_opened(run(state, inputs).1, peer);
    assert(run(state, inputs).0.open_peers().contains(peer) == run(state, inputs).0.is_in(
        peer,
        PeerState::Open,
    ));
}

/// While the inbound substream of a peer waits for the verdict, no input
/// opens it: none reports the stream as opened, only the application's
/// acceptance starts the opening, and its rejection closes the substream
/// without any event.
pub proof fn lemma_validation_gate(
    state: NotificationProtocolView,
    input: NotificationInputView,
    peer: Seq<u8>,
)
    requires
        state.is_in(peer, PeerState::Validating),
    ensures
        !(state.step(input).1.event matches Some(event) && event.is_opened(peer)),
        !state.step(input).0.is_in(peer, PeerState::Open),
        state.step(input).0.is_opening(peer) ==> input == accepts(peer),
        input == rejects(peer) ==> !state.step(input).0.peers.contains_key(peer) && state.step(
            input,
        ).1.event is None,
{
}

/// A stream is reported as opened only when its handshakes were being
/// exchanged.
pub proof fn lemma_opened_only_from_opening(
    state: NotificationProtocolView,
    input: NotificationInputView,
    peer: Seq<u8>,
)
    requires
        state.step(input).1.event matches Some(event) && event.is_opened(peer),
    ensures
        state.is_opening(peer),
        state.step(input).0.is_in(peer, PeerState::Open),
{
}

/// Without the application's acceptance, and without its own request for a
/// substream, the stream of a peer is never reported as opened: not while an
/// inbound substream waits for the verdict, and not after a rejection.
pub proof fn lemma_no_open_without_accept(
    state: NotificationProtocolView,
    inputs: Seq<NotificationInputView>,
    peer: Seq<u8>,
)
    requires
        !state.peers.contains_key(peer) || state.is_in(peer, PeerState::Validating),
        forall|i: int|
            0 <= i < inputs.len() ==> (#[trigger] inputs[i]) != accepts(peer) && inputs[i] != dials(
                peer,
            ),
    ensures
        forall|j: int|
            0 <= j < run(state, inputs).1.len() ==> !(#[trigger] run(state, inputs).1[j]).is_opened(
                peer,
            ),
        !run(state, inputs).0.peers.contains_key(peer) || run(state, inputs).0.is_in(
            peer,
            PeerState::Validating,
        ),
    decreases inputs.len(),
{
    if inputs.len() > 0 {
        let earlier = inputs.drop_last();
        assert forall|i: int| 0 <= i < earlier.len() implies (#[trigger] earlier[i]) != accepts(
            peer,
        ) && earlier[i] != dials(peer) by {
            assert(earlier[i] == inputs[i]);
        }
        lemma_no_open_without_accept(state, earlier, peer);
        let (before, events) = run(state, earlier);
        let input = inputs.last();
        assert(input == inputs[inputs.len() - 1]);
        assert(input != accepts(peer) && input != dials(peer));
    }
}

} // verus!
