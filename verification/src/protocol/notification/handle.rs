//! The application's side of the notification protocol.

use vstd::prelude::*;
use tokio::sync::mpsc::error::{SendError, TrySendError};
use tokio::sync::mpsc::{Receiver, Sender};
use crate::channel::{clone_sender, try_send};
use crate::error::{Error, NotificationError};
use crate::peer_id::PeerId;
use crate::protocol::notification::peers::PeerTable;
use crate::protocol::notification::types::{
    InnerNotificationEvent, NotificationCommand, NotificationEvent,
    NotificationEventView, ValidationResult,
};
use crate::types::ProtocolName;

verus! {

/// The end of the event channel that the notification protocol holds. It
/// makes the events that the protocol sends to the application's handle.
#[derive(Debug)]
pub struct NotificationEventHandle {
    tx: Sender<InnerNotificationEvent>,
}

impl NotificationEventHandle {
    /// The channel that carries the events to the application's handle.
    pub closed spec fn channel(&self) -> Sender<InnerNotificationEvent> {
        self.tx
    }

    /// Create new [`NotificationEventHandle`].
    pub fn new(tx: Sender<InnerNotificationEvent>) -> (r: NotificationEventHandle)
        ensures
            r.channel() == tx,
    {
        NotificationEventHandle { tx }
    }

    /// The channel that carries the events to the application's handle.
    pub fn sender(&self) -> (r: &Sender<InnerNotificationEvent>)
        ensures
            *r == self.channel(),
    {
        &self.tx
    }

    /// Validate inbound substream.
    pub fn report_inbound_substream(
        &self,
        protocol: ProtocolName,
        peer: PeerId,
        handshake: Vec<u8>,
    ) -> (r: InnerNotificationEvent)
        ensures
            r == (InnerNotificationEvent::ValidateSubstream { protocol, peer, handshake }),
    {
        InnerNotificationEvent::ValidateSubstream { protocol, peer, handshake }
    }

    /// Notification stream opened.
    pub fn report_notification_stream_opened(
        &self,
        protocol: ProtocolName,
        peer: PeerId,
        handshake: Vec<u8>,
        sink: NotificationSink,
    ) -> (r: InnerNotificationEvent)
        ensures
            r == (InnerNotificationEvent::NotificationStreamOpened {
                protocol,
                peer,
                handshake,
                sink,
            }),
    {
        InnerNotificationEvent::NotificationStreamOpened { protocol, peer, handshake, sink }
    }

    /// Notification stream closed.
    pub fn report_notification_stream_closed(&self, peer: PeerId) -> (r: InnerNotificationEvent)
        ensures
            r == (InnerNotificationEvent::NotificationStreamClosed { peer }),
    {
        InnerNotificationEvent::NotificationStreamClosed { peer }
    }

    /// Failed to open notification stream.
    pub fn report_notification_stream_open_failure(
        &self,
        peer: PeerId,
        error: NotificationError,
    ) -> (r: InnerNotificationEvent)
        ensures
            r == (InnerNotificationEvent::NotificationStreamOpenFailure { peer, error }),
    {
        InnerNotificationEvent::NotificationStreamOpenFailure { peer, error }
    }

    /// Notification received.
    pub fn report_notification_received(&self, peer: PeerId, notification: Vec<u8>) -> (r:
        InnerNotificationEvent)
        ensures
            r == (InnerNotificationEvent::NotificationReceived { peer, notification }),
    {
        InnerNotificationEvent::NotificationReceived { peer, notification }
    }
}

/// What sending a notification without waiting comes to: it was queued, or
/// the channel took no more.
pub fn sync_send_result(outcome: Result<(), TrySendError<Vec<u8>>>) -> (r: Result<
    (),
    NotificationError,
>)
    ensures
        outcome is Ok ==> r == Ok::<(), NotificationError>(()),
        outcome is Err ==> r == Err::<(), NotificationError>(NotificationError::ChannelClogged),
{
    match outcome {
        Ok(()) => Ok(()),
        Err(_) => Err(NotificationError::ChannelClogged),
    }
}

/// What sending a notification to `peer` with waiting comes to: it was
/// queued, or the stream of the peer has gone.
pub fn async_send_result(peer: PeerId, outcome: Result<(), SendError<Vec<u8>>>) -> (r: Result<
    (),
    Error,
>)
    ensures
        outcome is Ok ==> r == Ok::<(), Error>(()),
        outcome is Err ==> r == Err::<(), Error>(Error::PeerDoesntExist(peer)),
{
    match outcome {
        Ok(()) => Ok(()),
        Err(_) => Err(Error::PeerDoesntExist(peer)),
    }
}

/// Notification sink.
///
/// Allows the user to send notifications both synchronously and asynchronously.
#[derive(Debug)]
pub struct NotificationSink {
    /// Peer ID.
    peer: PeerId,
    /// TX channel for sending notifications synchronously.
    sync_tx: Sender<Vec<u8>>,
    /// TX channel for sending notifications asynchronously.
    async_tx: Sender<Vec<u8>>,
}

impl NotificationSink {
    /// The peer that the sink sends to.
    pub closed spec fn peer(&self) -> Seq<u8> {
        self.peer@
    }

    /// The channel of the notifications that are sent without waiting.
    pub closed spec fn sync_channel(&self) -> Sender<Vec<u8>> {
        self.sync_tx
    }

    /// The channel of the notifications that are sent with waiting.
    pub closed spec fn async_channel(&self) -> Sender<Vec<u8>> {
        self.async_tx
    }

    /// Create new [`NotificationSink`].
    pub fn new(peer: PeerId, sync_tx: Sender<Vec<u8>>, async_tx: Sender<Vec<u8>>) -> (r:
        NotificationSink)
        ensures
            r.peer() == peer@,
            r.sync_channel() == sync_tx,
            r.async_channel() == async_tx,
    {
        NotificationSink { peer, async_tx, sync_tx }
    }

    /// The channel into which notifications are sent without waiting.
    pub fn sync_sender(&self) -> (r: &Sender<Vec<u8>>)
        ensures
            *r == self.sync_channel(),
    {
        &self.sync_tx
    }

    /// The channel into which notifications are sent with waiting.
    pub fn async_sender(&self) -> (r: &Sender<Vec<u8>>)
        ensures
            *r == self.async_channel(),
    {
        &self.async_tx
    }

    /// Send notification to peer synchronously: hands `notification` to the
    /// channel that `sync_sender` gives, without waiting.
    ///
    /// If the channel is clogged, [`NotificationError::ChannelClogged`] is returned.
    pub fn send_sync_notification(&mut self, notification: Vec<u8>) -> (r: Result<
        (),
        NotificationError,
    >)
        ensures
            *final(self) == *old(self),
            r is Err ==> r == Err::<(), NotificationError>(NotificationError::ChannelClogged),
    {
        sync_send_result(try_send(self.sync_sender(), notification))
    }

    /// The notification to send to the peer asynchronously: the channel to
    /// send it into with waiting, and the peer to name if the channel has
    /// been closed.
    pub fn send_async_notification(&mut self, notification: Vec<u8>) -> (r: AsyncNotification)
        ensures
            *final(self) == *old(self),
            r.peer@ == old(self).peer(),
            r.tx == old(self).async_channel(),
            r.notification == notification,
    {
        AsyncNotification {
            peer: self.peer.clone(),
            tx: clone_sender(self.async_sender()),
            notification,
        }
    }
}

/// A notification that is to be sent with waiting.
#[derive(Debug)]
pub struct AsyncNotification {
    /// The peer that the notification is for.
    pub peer: PeerId,
    /// The channel to send the notification into.
    pub tx: Sender<Vec<u8>>,
    /// The notification.
    pub notification: Vec<u8>,
}

/// The peers with an open stream after `event`, if `peers` had one before:
/// an opened stream adds its peer, and a closed stream and a stream that
/// failed to open take theirs out.
pub open spec fn open_peers_after(peers: Set<Seq<u8>>, event: NotificationEventView) -> Set<
    Seq<u8>,
> {
    match event {
        NotificationEventView::NotificationStreamOpened { peer, .. } => peers.insert(peer),
        NotificationEventView::NotificationStreamClosed { peer } => peers.remove(peer),
        NotificationEventView::NotificationStreamOpenFailure { peer, .. } => peers.remove(peer),
        _ => peers,
    }
}

/// The peers with an open stream after `events`, in their order.
pub open spec fn open_peers_after_all(peers: Set<Seq<u8>>, events: Seq<NotificationEventView>) -> Set<
    Seq<u8>,
>
    decreases events.len(),
{
    if events.len() == 0 {
        peers
    } else {
        open_peers_after(open_peers_after_all(peers, events.drop_last()), events.last())
    }
}

/// Whether the last word of `events` on the stream of `peer` is that it was
/// opened: some event opens it, and none after that closes it or reports
/// that it failed to open.
pub open spec fn ends_opened(events: Seq<NotificationEventView>, peer: Seq<u8>) -> bool {
    exists|i: int|
        0 <= i < events.len() && (#[trigger] events[i]).is_opened(peer) && forall|j: int|
            i < j < events.len() ==> !(#[trigger] events[j]).is_closed(peer)
                && !events[j].is_open_failure(peer)
}

/// A peer is in the table of a handle exactly if the last word of the events
/// on its stream is that it was opened: some event opened it, and no event
/// after that closed it or reported a failure to open it. The handle starts
/// with an empty table and has taken in `events`, whatever they are.
pub proof fn lemma_open_iff_ends_opened(events: Seq<NotificationEventView>, peer: Seq<u8>)
    ensures
        open_peers_after_all(Set::empty(), events).contains(peer) <==> ends_opened(events, peer),
    decreases events.len(),
{
    if events.len() > 0 {
        let earlier = events.drop_last();
        let last = events.last();
        let n = earlier.len() as int;
        assert(events[n] == last);
        lemma_open_iff_ends_opened(earlier, peer);
        if last.is_opened(peer) {
        } else if last.is_closed(peer) || last.is_open_failure(peer) {
            if ends_opened(events, peer) {
                let i = choose|i: int|
                    0 <= i < events.len() && (#[trigger] events[i]).is_opened(peer) && forall|
                        j: int,
                    |
                        i < j < events.len() ==> !(#[trigger] events[j]).is_closed(peer)
                            && !events[j].is_open_failure(peer);
                assert(i < n);
            }
        } else {
            if ends_opened(events, peer) {
                let i = choose|i: int|
                    0 <= i < events.len() && (#[trigger] events[i]).is_opened(peer) && forall|
                        j: int,
                    |
                        i < j < events.len() ==> !(#[trigger] events[j]).is_closed(peer)
                            && !events[j].is_open_failure(peer);
                assert(earlier[i] == events[i]);
                assert forall|j: int| i < j < earlier.len() implies !(#[trigger] earlier[j]).is_closed(
                    peer,
                ) && !earlier[j].is_open_failure(peer) by {
                    assert(earlier[j] == events[j]);
                }
            }
            if ends_opened(earlier, peer) {
                let i = choose|i: int|
                    0 <= i < earlier.len() && (#[trigger] earlier[i]).is_opened(peer) && forall|
                        j: int,
                    |
                        i < j < earlier.len() ==> !(#[trigger] earlier[j]).is_closed(peer)
                            && !earlier[j].is_open_failure(peer);
                assert(events[i] == earlier[i]);
                assert forall|j: int| i < j < events.len() implies !(#[trigger] events[j]).is_closed(
                    peer,
                ) && !events[j].is_open_failure(peer) by {
                    if j < n {
                        assert(earlier[j] == events[j]);
                    }
                }
            }
        }
    }
}

/// Handle allowing the user protocol to interact with the notification protocol.
#[derive(Debug)]
pub struct NotificationHandle {
    /// RX channel for receiving events from the notification protocol.
    event_rx: Receiver<InnerNotificationEvent>,
    /// TX channel for sending commands to the notification protocol.
    command_tx: Sender<NotificationCommand>,
    /// Peers.
    peers: PeerTable<NotificationSink>,
}

impl NotificationHandle {
    /// The sinks of the peers with an open stream.
    pub closed spec fn peers(&self) -> Map<Seq<u8>, NotificationSink> {
        self.peers@
    }

    /// The channel that carries the commands to the notification protocol.
    pub closed spec fn command_channel(&self) -> Sender<NotificationCommand> {
        self.command_tx
    }

    /// The channel that the events of the notification protocol come from.
    pub closed spec fn event_channel(&self) -> Receiver<InnerNotificationEvent> {
        self.event_rx
    }

    /// Every peer has at most one sink.
    pub closed spec fn wf(&self) -> bool {
        self.peers.wf()
    }

    /// Create new [`NotificationHandle`], with no open stream.
    pub fn new(
        event_rx: Receiver<InnerNotificationEvent>,
        command_tx: Sender<NotificationCommand>,
    ) -> (r: NotificationHandle)
        ensures
            r.wf(),
            r.peers() == Map::<Seq<u8>, NotificationSink>::empty(),
            r.command_channel() == command_tx,
            r.event_channel() == event_rx,
    {
        NotificationHandle { event_rx, command_tx, peers: PeerTable::new() }
    }

    /// The channel that carries the commands to the notification protocol.
    pub fn command_sender(&self) -> (r: &Sender<NotificationCommand>)
        ensures
            *r == self.command_channel(),
    {
        &self.command_tx
    }

    /// The channel from which the events of the notification protocol are
    /// taken, each to be handed to `next_event`.
    pub fn event_receiver(&mut self) -> (r: &mut Receiver<InnerNotificationEvent>)
        ensures
            *r == old(self).event_channel(),
            final(self).event_channel() == *final(r),
            final(self).command_channel() == old(self).command_channel(),
            final(self).wf() == old(self).wf(),
            final(self).peers() == old(self).peers(),
    {
        &mut self.event_rx
    }

    /// Whether the stream of `peer` is open.
    pub fn is_open(&self, peer: &PeerId) -> (r: bool)
        requires
            self.wf(),
        ensures
            r == self.peers().contains_key(peer@),
    {
        self.peers.contains_key(peer)
    }

    /// Open substream to `peer`: gives the command to send to the
    /// notification protocol.
    ///
    /// Returns [`Error::PeerAlreadyExists(PeerId)`](crate::error::Error::PeerAlreadyExists) if
    /// substream is already open to `peer`.
    pub fn open_substream(&self, peer: PeerId) -> (r: Result<NotificationCommand, Error>)
        requires
            self.wf(),
        ensures
            self.peers().contains_key(peer@) ==> r == Err::<NotificationCommand, Error>(
                Error::PeerAlreadyExists(peer),
            ),
            !self.peers().contains_key(peer@) ==> r == Ok::<NotificationCommand, Error>(
                NotificationCommand::OpenSubstream { peer },
            ),
    {
        if self.peers.contains_key(&peer) {
            return Err(Error::PeerAlreadyExists(peer));
        }
        Ok(NotificationCommand::OpenSubstream { peer })
    }

    /// Close substream to `peer`: gives the command to send to the
    /// notification protocol, and none if no substream is open to `peer`.
    pub fn close_substream(&self, peer: PeerId) -> (r: Option<NotificationCommand>)
        requires
            self.wf(),
        ensures
            self.peers().contains_key(peer@) ==> r == Some(
                NotificationCommand::CloseSubstream { peer },
            ),
            !self.peers().contains_key(peer@) ==> r is None,
    {
        if !self.peers.contains_key(&peer) {
            return None;
        }
        Some(NotificationCommand::CloseSubstream { peer })
    }

    /// Set new handshake: gives the command to send to the notification
    /// protocol.
    pub fn set_handshake(&mut self, handshake: Vec<u8>) -> (r: NotificationCommand)
        ensures
            *final(self) == *old(self),
            r == (NotificationCommand::SetHandshake { handshake }),
    {
        NotificationCommand::SetHandshake { handshake }
    }

    /// Send validation result to the notification protocol for the inbound
    /// substream: gives the command to send.
    pub fn send_validation_result(&self, peer: PeerId, result: ValidationResult) -> (r:
        NotificationCommand)
        ensures
            r == (NotificationCommand::SubstreamValidated { peer, result }),
    {
        NotificationCommand::SubstreamValidated { peer, result }
    }

    /// The channel into which notifications for `peer` are sent without
    /// waiting: the sync channel of the sink of `peer`, and none if no
    /// stream is open to `peer`.
    pub fn sync_sender(&self, peer: &PeerId) -> (r: Option<&Sender<Vec<u8>>>)
        requires
            self.wf(),
        ensures
            match r {
                Some(tx) => self.peers().contains_key(peer@) && *tx == self.peers()[peer@]
                    .sync_channel(),
                None => !self.peers().contains_key(peer@),
            },
    {
        match self.peers.get(peer) {
            Some(sink) => Some(sink.sync_sender()),
            None => None,
        }
    }

    /// The channel into which notifications for `peer` are sent with
    /// waiting: the async channel of the sink of `peer`, and none if no
    /// stream is open to `peer`.
    pub fn async_sender(&self, peer: &PeerId) -> (r: Option<&Sender<Vec<u8>>>)
        requires
            self.wf(),
        ensures
            match r {
                Some(tx) => self.peers().contains_key(peer@) && *tx == self.peers()[peer@]
                    .async_channel(),
                None => !self.peers().contains_key(peer@),
            },
    {
        match self.peers.get(peer) {
            Some(sink) => Some(sink.async_sender()),
            None => None,
        }
    }

    /// Send synchronous notification to `peer`: hands `notification` to the
    /// channel that `sync_sender` gives for `peer`, without waiting. Without
    /// an open stream to `peer` nothing is sent, and that is no error.
    ///
    /// If the channel is clogged, [`NotificationError::ChannelClogged`] is returned.
    pub fn send_sync_notification(&mut self, peer: PeerId, notification: Vec<u8>) -> (r: Result<
        (),
        NotificationError,
    >)
        requires
            old(self).wf(),
        ensures
            final(self).wf(),
            *final(self) == *old(self),
            !old(self).peers().contains_key(peer@) ==> r == Ok::<(), NotificationError>(()),
            r is Err ==> r == Err::<(), NotificationError>(NotificationError::ChannelClogged),
    {
        match self.sync_sender(&peer) {
            Some(tx) => sync_send_result(try_send(tx, notification)),
            None => Ok(()),
        }
    }

    /// Send asynchronous notification to `peer`: gives the notification
    /// with the channel to send it into with waiting, which is the async
    /// channel of the sink of `peer`, and with `peer` to name if that channel
    /// has been closed.
    ///
    /// Returns [`Error::PeerDoesntExist(PeerId)`](crate::error::Error::PeerDoesntExist) if
    /// no stream is open to `peer`.
    pub fn send_async_notification(&mut self, peer: PeerId, notification: Vec<u8>) -> (r: Result<
        AsyncNotification,
        Error,
    >)
        requires
            old(self).wf(),
        ensures
            final(self).wf(),
            *final(self) == *old(self),
            !old(self).peers().contains_key(peer@) ==> r == Err::<AsyncNotification, Error>(
                Error::PeerDoesntExist(peer),
            ),
            old(self).peers().contains_key(peer@) ==> r is Ok && r->Ok_0.notification
                == notification && r->Ok_0.peer == peer && r->Ok_0.tx == old(self).peers()[peer@]
                .async_channel(),
    {
        match self.async_sender(&peer) {
            Some(tx) => {
                let tx = clone_sender(tx);
                Ok(AsyncNotification { peer, tx, notification })
            },
            None => Err(Error::PeerDoesntExist(peer)),
        }
    }

    /// Takes in what the event channel gave and gives the event for the
    /// application. An opened stream puts its sink into the table of peers;
    /// a closed stream and a stream that failed to open take the peer out of
    /// it; no other event changes the table.
    /// `None`, the end of the channel, is the end of the events.
    pub fn next_event(&mut self, event: Option<InnerNotificationEvent>) -> (r: Option<
        NotificationEvent,
    >)
        requires
            old(self).wf(),
        ensures
            final(self).wf(),
            final(self).command_channel() == old(self).command_channel(),
            final(self).event_channel() == old(self).event_channel(),
            match event {
                None => r is None && final(self).peers() == old(self).peers(),
                Some(inner) => {
                    &&& r is Some
                    &&& r->Some_0@ == inner@
                    &&& final(self).peers().dom() == open_peers_after(
                        old(self).peers().dom(),
                        inner@,
                    )
                    &&& match inner {
                        InnerNotificationEvent::NotificationStreamOpened { peer, sink, .. } => {
                            final(self).peers() == old(self).peers().insert(peer@, sink)
                        },
                        InnerNotificationEvent::NotificationStreamClosed { peer } => {
                            final(self).peers() == old(self).peers().remove(peer@)
                        },
                        InnerNotificationEvent::NotificationStreamOpenFailure { peer, .. } => {
                            final(self).peers() == old(self).peers().remove(peer@)
                        },
                        _ => final(self).peers() == old(self).peers(),
                    }
                },
            },
    {
        match event {
            None => None,
            Some(event) => match event {
                InnerNotificationEvent::ValidateSubstream { protocol, peer, handshake } => Some(
                    NotificationEvent::ValidateSubstream { protocol, peer, handshake },
                ),
                InnerNotificationEvent::NotificationStreamOpened {
                    protocol,
                    peer,
                    handshake,
                    sink,
                } => {
                    let _ = self.peers.insert(peer.clone(), sink);
                    assert(self.peers@.dom() =~= old(self).peers@.dom().insert(peer@));
                    Some(NotificationEvent::NotificationStreamOpened { protocol, peer, handshake })
                },
                InnerNotificationEvent::NotificationStreamClosed { peer } => {
                    let _ = self.peers.remove(&peer);
                    assert(self.peers@.dom() =~= old(self).peers@.dom().remove(peer@));
                    Some(NotificationEvent::NotificationStreamClosed { peer })
                },
                InnerNotificationEvent::NotificationStreamOpenFailure { peer, error } => {
                    let _ = self.peers.remove(&peer);
                    assert(self.peers@.dom() =~= old(self).peers@.dom().remove(peer@));
                    Some(NotificationEvent::NotificationStreamOpenFailure { peer, error })
                },
                InnerNotificationEvent::NotificationReceived { peer, notification } => Some(
                    NotificationEvent::NotificationReceived { peer, notification },
                ),
            },
        }
    }
}

} // verus!
