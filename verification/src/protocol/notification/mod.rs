//! The notification protocol.
//!
//! For every peer the protocol has at most one notification substream, which
//! is closed, validating, opening or open. [`NotificationProtocol`] decides
//! how the substream of a peer moves between these on what the connection,
//! the remote peer and the application do, and says what is to be reported to
//! the application and what is to be done on the substream.

use vstd::prelude::*;
use tokio::sync::mpsc::{Receiver, Sender};
use crate::channel::{bounded_channel, clone_sender, MAX_CHANNEL_SIZE};
use crate::error::NotificationError;
use crate::peer_id::{bytes_to_vec, PeerId};
use crate::protocol::notification::handle::{NotificationEventHandle, NotificationSink};
use crate::protocol::notification::peers::PeerTable;
use crate::protocol::notification::types::{
    InnerNotificationEvent, NotificationCommand, NotificationCommandView, NotificationEventView,
    ValidationResult,
};
use crate::protocol::{
    ConnectionEvent, ConnectionService, ConnectionServiceView, Direction, ProtocolEvent,
    ProtocolEventView,
};
use crate::types::{ProtocolName, SubstreamId};

pub mod handle;
pub mod lifecycle;
pub mod peers;
pub mod types;

verus! {

/// Where the notification substream of a peer stands. A peer without a
/// state has no substream: its substream is closed.
#[derive(Debug, Clone, Copy, PartialEq, Eq, Structural)]
pub enum PeerState {
    /// An inbound substream waits for the verdict of the application.
    Validating,
    /// The handshakes are being exchanged.
    Opening {
        /// Who opened the substream.
        direction: Direction,
    },
    /// The substream is open and carries notifications.
    Open,
}

/// What happens to the notification protocol.
#[derive(Debug)]
pub enum NotificationInput {
    /// A connection to `peer` stands; `service` asks for substreams on it.
    ConnectionEstablished { peer: PeerId, service: ConnectionService },
    /// The connection to `peer` was closed.
    ConnectionClosed { peer: PeerId },
    /// `peer` opened a substream and sent `handshake` on it.
    InboundSubstream { peer: PeerId, handshake: Vec<u8> },
    /// The substream that was asked for under `substream_id` stands.
    OutboundSubstream { peer: PeerId, substream_id: SubstreamId },
    /// A substream to `peer` could not be opened.
    SubstreamOpenFailure { peer: PeerId },
    /// The handshakes are exchanged; `handshake` is that of `peer`.
    HandshakeReceived { peer: PeerId, handshake: Vec<u8> },
    /// `peer` sent `notification` on its substream.
    NotificationReceived { peer: PeerId, notification: Vec<u8> },
    /// The substream of `peer` ended: the peer closed it, or writing to it
    /// failed.
    SubstreamClosed { peer: PeerId },
    /// The application's handle sent a command.
    Command(NotificationCommand),
}

/// What a [`NotificationInput`] says.
pub enum NotificationInputView {
    /// A connection stands.
    ConnectionEstablished { peer: Seq<u8>, service: ConnectionServiceView },
    /// A connection was closed.
    ConnectionClosed { peer: Seq<u8> },
    /// The peer opened a substream.
    InboundSubstream { peer: Seq<u8>, handshake: Seq<u8> },
    /// A substream that was asked for stands.
    OutboundSubstream { peer: Seq<u8>, substream_id: SubstreamId },
    /// A substream could not be opened.
    SubstreamOpenFailure { peer: Seq<u8> },
    /// The handshakes are exchanged.
    HandshakeReceived { peer: Seq<u8>, handshake: Seq<u8> },
    /// The peer sent a notification.
    NotificationReceived { peer: Seq<u8>, notification: Seq<u8> },
    /// The substream ended.
    SubstreamClosed { peer: Seq<u8> },
    /// The application's handle sent a command.
    Command(NotificationCommandView),
}

impl View for NotificationInput {
    type V = NotificationInputView;

    open spec fn view(&self) -> NotificationInputView {
        match self {
            NotificationInput::ConnectionEstablished { peer, service } => {
                NotificationInputView::ConnectionEstablished { peer: peer@, service: service@ }
            },
            NotificationInput::ConnectionClosed { peer } => {
                NotificationInputView::ConnectionClosed { peer: peer@ }
            },
            NotificationInput::InboundSubstream { peer, handshake } => {
                NotificationInputView::InboundSubstream { peer: peer@, handshake: handshake@ }
            },
            NotificationInput::OutboundSubstream { peer, substream_id } => {
                NotificationInputView::OutboundSubstream {
                    peer: peer@,
                    substream_id: *substream_id,
                }
            },
            NotificationInput::SubstreamOpenFailure { peer } => {
                NotificationInputView::SubstreamOpenFailure { peer: peer@ }
            },
            NotificationInput::HandshakeReceived { peer, handshake } => {
                NotificationInputView::HandshakeReceived { peer: peer@, handshake: handshake@ }
            },
            NotificationInput::NotificationReceived { peer, notification } => {
                NotificationInputView::NotificationReceived {
                    peer: peer@,
                    notification: notification@,
                }
            },
            NotificationInput::SubstreamClosed { peer } => NotificationInputView::SubstreamClosed {
                peer: peer@,
            },
            NotificationInput::Command(command) => NotificationInputView::Command(command@),
        }
    }
}

impl NotificationInput {
    /// What an event of the connection is to the notification protocol. An
    /// inbound substream is none yet: it becomes one when its handshake has
    /// been read.
    pub fn from_connection_event(event: ConnectionEvent) -> (r: Option<NotificationInput>)
        ensures
            match event {
                ConnectionEvent::ConnectionEstablished { peer, service } => r == Some(
                    NotificationInput::ConnectionEstablished { peer, service },
                ),
                ConnectionEvent::ConnectionClosed { peer } => r == Some(
                    NotificationInput::ConnectionClosed { peer },
                ),
                ConnectionEvent::SubstreamOpened { peer, direction, .. } => match direction {
                    Direction::Inbound => r is None,
                    Direction::Outbound(substream_id) => r == Some(
                        NotificationInput::OutboundSubstream { peer, substream_id },
                    ),
                },
                ConnectionEvent::SubstreamOpenFailure { peer, .. } => r == Some(
                    NotificationInput::SubstreamOpenFailure { peer },
                ),
            },
    {
        match event {
            ConnectionEvent::ConnectionEstablished { peer, service } => Some(
                NotificationInput::ConnectionEstablished { peer, service },
            ),
            ConnectionEvent::ConnectionClosed { peer } => Some(
                NotificationInput::ConnectionClosed { peer },
            ),
            ConnectionEvent::SubstreamOpened { peer, protocol: _, direction, codec: _ } => {
                match direction {
                    Direction::Inbound => None,
                    Direction::Outbound(substream_id) => Some(
                        NotificationInput::OutboundSubstream { peer, substream_id },
                    ),
                }
            },
            ConnectionEvent::SubstreamOpenFailure { peer, error: _ } => Some(
                NotificationInput::SubstreamOpenFailure { peer },
            ),
        }
    }
}

/// What is to be done for the notification protocol on a connection.
#[derive(Debug)]
pub enum NotificationAction {
    /// Send `request` into `tx`, to the connection to `peer`: `tx` is the
    /// channel of the handle of that connection.
    OpenSubstream { peer: PeerId, request: ProtocolEvent, tx: Sender<ProtocolEvent> },
    /// Send `handshake` on the substream of `peer`.
    SendHandshake { peer: PeerId, handshake: Vec<u8> },
    /// Write what arrives in the two channels to the substream of `peer`.
    ServeSink { peer: PeerId, sync_rx: Receiver<Vec<u8>>, async_rx: Receiver<Vec<u8>> },
    /// Close the substream of `peer`.
    CloseSubstream { peer: PeerId },
    /// Close the substream that was just reported for `peer`; the peer's
    /// own substream, if it has one, stays.
    RefuseSubstream { peer: PeerId },
}

/// What a [`NotificationAction`] says.
pub enum NotificationActionView {
    /// Ask the connection for a substream: send `request` into `tx`.
    OpenSubstream { peer: Seq<u8>, request: ProtocolEventView, tx: Sender<ProtocolEvent> },
    /// Send the handshake.
    SendHandshake { peer: Seq<u8>, handshake: Seq<u8> },
    /// Serve the sink of the peer.
    ServeSink { peer: Seq<u8> },
    /// Close the substream of the peer.
    CloseSubstream { peer: Seq<u8> },
    /// Close the substream that was just reported.
    RefuseSubstream { peer: Seq<u8> },
}

impl View for NotificationAction {
    type V = NotificationActionView;

    open spec fn view(&self) -> NotificationActionView {
        match self {
            NotificationAction::OpenSubstream { peer, request, tx } => {
                NotificationActionView::OpenSubstream { peer: peer@, request: request@, tx: *tx }
            },
            NotificationAction::SendHandshake { peer, handshake } => {
                NotificationActionView::SendHandshake { peer: peer@, handshake: handshake@ }
            },
            NotificationAction::ServeSink { peer, sync_rx, async_rx } => {
                NotificationActionView::ServeSink { peer: peer@ }
            },
            NotificationAction::CloseSubstream { peer } => NotificationActionView::CloseSubstream {
                peer: peer@,
            },
            NotificationAction::RefuseSubstream { peer } => {
                NotificationActionView::RefuseSubstream { peer: peer@ }
            },
        }
    }
}

/// What the notification protocol answers to an input.
#[derive(Debug)]
pub struct NotificationOutcome {
    /// The event to send to the application's handle, if there is one.
    pub event: Option<InnerNotificationEvent>,
    /// What is to be done on the connection, if anything.
    pub action: Option<NotificationAction>,
}

/// What a [`NotificationOutcome`] says.
#[verifier::ext_equal]
pub struct NotificationOutcomeView {
    /// The event for the application.
    pub event: Option<NotificationEventView>,
    /// What is to be done on the connection.
    pub action: Option<NotificationActionView>,
}

impl View for NotificationOutcome {
    type V = NotificationOutcomeView;

    open spec fn view(&self) -> NotificationOutcomeView {
        NotificationOutcomeView {
            event: match self.event {
                Some(event) => Some(event@),
                None => None,
            },
            action: match self.action {
                Some(action) => Some(action@),
                None => None,
            },
        }
    }
}

/// The state of the notification protocol.
#[verifier::ext_equal]
pub struct NotificationProtocolView {
    /// The name of the protocol.
    pub protocol: Seq<char>,
    /// The handshake that is sent to peers.
    pub handshake: Seq<u8>,
    /// The peers whose substream is not closed, each with its state.
    pub peers: Map<Seq<u8>, PeerState>,
    /// The handles of the connections that stand.
    pub connections: Map<Seq<u8>, ConnectionServiceView>,
}

impl NotificationProtocolView {
    /// Whether the substream of `peer` is in `state`.
    pub open spec fn is_in(self, peer: Seq<u8>, state: PeerState) -> bool {
        self.peers.contains_key(peer) && self.peers[peer] == state
    }

    /// Whether the substream of `peer` is being opened.
    pub open spec fn is_opening(self, peer: Seq<u8>) -> bool {
        self.peers.contains_key(peer) && self.peers[peer] is Opening
    }

    /// The peers whose substream is open.
    pub open spec fn open_peers(self) -> Set<Seq<u8>> {
        Set::new(|peer: Seq<u8>| self.is_in(peer, PeerState::Open))
    }

    /// The state with the substream of `peer` in `state`.
    pub open spec fn with_peer(self, peer: Seq<u8>, state: PeerState) -> NotificationProtocolView {
        NotificationProtocolView { peers: self.peers.insert(peer, state), ..self }
    }

    /// The state with the substream of `peer` closed.
    pub open spec fn without_peer(self, peer: Seq<u8>) -> NotificationProtocolView {
        NotificationProtocolView { peers: self.peers.remove(peer), ..self }
    }

    /// What is reported when the substream of `peer` ends: that an open
    /// stream was closed, that a stream that was being opened failed to
    /// open, and nothing of a substream that was never accepted.
    pub open spec fn end_report(self, peer: Seq<u8>) -> Option<NotificationEventView> {
        if !self.peers.contains_key(peer) {
            None
        } else {
            match self.peers[peer] {
                PeerState::Validating => None,
                PeerState::Opening { .. } => Some(
                    NotificationEventView::NotificationStreamOpenFailure {
                        peer,
                        error: NotificationError::Cancelled,
                    },
                ),
                PeerState::Open => Some(NotificationEventView::NotificationStreamClosed { peer }),
            }
        }
    }

    /// The state after a command of the application, and the answer to it.
    pub open spec fn command(self, command: NotificationCommandView) -> (
        NotificationProtocolView,
        NotificationOutcomeView,
    ) {
        match command {
            NotificationCommandView::OpenSubstream { peer } => {
                if self.peers.contains_key(peer) {
                    (self, NotificationOutcomeView { event: None, action: None })
                } else if self.connections.contains_key(peer)
                    && self.connections[peer].next_substream_id < usize::MAX {
                    let service = self.connections[peer];
                    let substream_id = service.next_substream_id;
                    (
                        NotificationProtocolView {
                            connections: self.connections.insert(peer, service.opened()),
                            peers: self.peers.insert(
                                peer,
                                PeerState::Opening { direction: Direction::Outbound(substream_id) },
                            ),
                            ..self
                        },
                        NotificationOutcomeView {
                            event: None,
                            action: Some(
                                NotificationActionView::OpenSubstream {
                                    peer,
                                    request: ProtocolEventView::OpenSubstream {
                                        protocol: service.protocol,
                                        substream_id,
                                    },
                                    tx: service.channel,
                                },
                            ),
                        },
                    )
                } else {
                    (
                        self,
                        NotificationOutcomeView {
                            event: Some(
                                NotificationEventView::NotificationStreamOpenFailure {
                                    peer,
                                    error: NotificationError::NoConnection,
                                },
                            ),
                            action: None,
                        },
                    )
                }
            },
            NotificationCommandView::CloseSubstream { peer } => {
                if self.is_in(peer, PeerState::Open) {
                    (
                        self.without_peer(peer),
                        NotificationOutcomeView {
                            event: Some(NotificationEventView::NotificationStreamClosed { peer }),
                            action: Some(NotificationActionView::CloseSubstream { peer }),
                        },
                    )
                } else {
                    (self, NotificationOutcomeView { event: None, action: None })
                }
            },
            NotificationCommandView::SetHandshake { handshake } => (
                NotificationProtocolView { handshake, ..self },
                NotificationOutcomeView { event: None, action: None },
            ),
            NotificationCommandView::SubstreamValidated { peer, result } => {
                if self.is_in(peer, PeerState::Validating) {
                    match result {
                        ValidationResult::Accept => (
                            self.with_peer(
                                peer,
                                PeerState::Opening { direction: Direction::Inbound },
                            ),
                            NotificationOutcomeView {
                                event: None,
                                action: Some(
                                    NotificationActionView::SendHandshake {
                                        peer,
                                        handshake: self.handshake,
                                    },
                                ),
                            },
                        ),
                        ValidationResult::Reject => (
                            self.without_peer(peer),
                            NotificationOutcomeView {
                                event: None,
                                action: Some(NotificationActionView::CloseSubstream { peer }),
                            },
                        ),
                    }
                } else {
                    (self, NotificationOutcomeView { event: None, action: None })
                }
            },
        }
    }

    /// The state after an input, and the answer to the input.
    pub open spec fn step(self, input: NotificationInputView) -> (
        NotificationProtocolView,
        NotificationOutcomeView,
    ) {
        match input {
            NotificationInputView::ConnectionEstablished { peer, service } => (
                NotificationProtocolView {
                    connections: self.connections.insert(peer, service),
                    ..self
                },
                NotificationOutcomeView { event: None, action: None },
            ),
            NotificationInputView::ConnectionClosed { peer } => (
                NotificationProtocolView {
                    connections: self.connections.remove(peer),
                    peers: self.peers.remove(peer),
                    ..self
                },
                NotificationOutcomeView { event: self.end_report(peer), action: None },
            ),
            NotificationInputView::SubstreamClosed { peer } => (
                self.without_peer(peer),
                NotificationOutcomeView { event: self.end_report(peer), action: None },
            ),
            NotificationInputView::InboundSubstream { peer, handshake } => {
                if self.peers.contains_key(peer) {
                    (
                        self,
                        NotificationOutcomeView {
                            event: None,
                            action: Some(NotificationActionView::RefuseSubstream { peer }),
                        },
                    )
                } else {
                    (
                        self.with_peer(peer, PeerState::Validating),
                        NotificationOutcomeView {
                            event: Some(
                                NotificationEventView::ValidateSubstream {
                                    protocol: self.protocol,
                                    peer,
                                    handshake,
                                },
                            ),
                            action: None,
                        },
                    )
                }
            },
            NotificationInputView::OutboundSubstream { peer, substream_id } => {
                if self.is_in(
                    peer,
                    PeerState::Opening { direction: Direction::Outbound(substream_id) },
                ) {
                    (
                        self,
                        NotificationOutcomeView {
                            event: None,
                            action: Some(
                                NotificationActionView::SendHandshake {
                                    peer,
                                    handshake: self.handshake,
                                },
                            ),
                        },
                    )
                } else {
                    (
                        self,
                        NotificationOutcomeView {
                            event: None,
                            action: Some(NotificationActionView::RefuseSubstream { peer }),
                        },
                    )
                }
            },
            NotificationInputView::SubstreamOpenFailure { peer } => {
                if self.is_opening(peer) {
                    (
                        self.without_peer(peer),
                        NotificationOutcomeView {
                            event: Some(
                                NotificationEventView::NotificationStreamOpenFailure {
                                    peer,
                                    error: NotificationError::Rejected,
                                },
                            ),
                            action: None,
                        },
                    )
                } else {
                    (self, NotificationOutcomeView { event: None, action: None })
                }
            },
            NotificationInputView::HandshakeReceived { peer, handshake } => {
                if self.is_opening(peer) {
                    (
                        self.with_peer(peer, PeerState::Open),
                        NotificationOutcomeView {
                            event: Some(
                                NotificationEventView::NotificationStreamOpened {
                                    protocol: self.protocol,
                                    peer,
                                    handshake,
                                },
                            ),
                            action: Some(NotificationActionView::ServeSink { peer }),
                        },
                    )
                } else {
                    (self, NotificationOutcomeView { event: None, action: None })
                }
            },
            NotificationInputView::NotificationReceived { peer, notification } => {
                if self.is_in(peer, PeerState::Open) {
                    (
                        self,
                        NotificationOutcomeView {
                            event: Some(
                                NotificationEventView::NotificationReceived { peer, notification },
                            ),
                            action: None,
                        },
                    )
                } else {
                    (self, NotificationOutcomeView { event: None, action: None })
                }
            },
            NotificationInputView::Command(command) => self.command(command),
        }
    }
}

impl NotificationOutcome {
    /// The answer that reports nothing and asks for nothing.
    pub fn nothing() -> (r: NotificationOutcome)
        ensures
            r@ == (NotificationOutcomeView { event: None, action: None }),
    {
        NotificationOutcome { event: None, action: None }
    }
}

/// The notification protocol of one protocol name: the substreams of all
/// peers, the handshake, and the handles of the connections.
#[derive(Debug)]
pub struct NotificationProtocol {
    protocol: ProtocolName,
    handshake: Vec<u8>,
    events: NotificationEventHandle,
    sync_channel_size: usize,
    async_channel_size: usize,
    peers: PeerTable<PeerState>,
    connections: PeerTable<ConnectionService>,
}

impl View for NotificationProtocol {
    type V = NotificationProtocolView;

    closed spec fn view(&self) -> NotificationProtocolView {
        NotificationProtocolView {
            protocol: self.protocol@,
            handshake: self.handshake@,
            peers: self.peers@,
            connections: self.connections@.map_values(|service: ConnectionService| service@),
        }
    }
}

impl NotificationProtocol {
    /// Every peer has at most one state and one connection, and the
    /// channels of a sink can be created.
    pub closed spec fn wf(&self) -> bool {
        &&& self.peers.wf()
        &&& self.connections.wf()
        &&& 0 < self.sync_channel_size <= MAX_CHANNEL_SIZE
        &&& 0 < self.async_channel_size <= MAX_CHANNEL_SIZE
    }

    /// The end of the event channel, through which the events go to the
    /// application's handle.
    pub closed spec fn event_handle(&self) -> NotificationEventHandle {
        self.events
    }

    /// The number of notifications that the sync channel of a sink is made
    /// to hold.
    pub closed spec fn sync_channel_size(&self) -> usize {
        self.sync_channel_size
    }

    /// The number of notifications that the async channel of a sink is made
    /// to hold.
    pub closed spec fn async_channel_size(&self) -> usize {
        self.async_channel_size
    }

    /// The notification protocol of `protocol`, with no peer and no
    /// connection. Its events go through `events`. The channels of a sink
    /// hold `sync_channel_size` and `async_channel_size` notifications.
    pub fn new(
        protocol: ProtocolName,
        handshake: Vec<u8>,
        events: NotificationEventHandle,
        sync_channel_size: usize,
        async_channel_size: usize,
    ) -> (r: NotificationProtocol)
        requires
            0 < sync_channel_size <= MAX_CHANNEL_SIZE,
            0 < async_channel_size <= MAX_CHANNEL_SIZE,
        ensures
            r.wf(),
            r.event_handle() == events,
            r.sync_channel_size() == sync_channel_size,
            r.async_channel_size() == async_channel_size,
            r@ == (NotificationProtocolView {
                protocol: protocol@,
                handshake: handshake@,
                peers: Map::empty(),
                connections: Map::empty(),
            }),
    {
        let r = NotificationProtocol {
            protocol,
            handshake,
            events,
            sync_channel_size,
            async_channel_size,
            peers: PeerTable::new(),
            connections: PeerTable::new(),
        };
        assert(r@.connections =~= Map::empty());
        r
    }

    /// The end of the event channel, through which the events go to the
    /// application's handle.
    pub fn events(&self) -> (r: &NotificationEventHandle)
        ensures
            *r == self.event_handle(),
    {
        &self.events
    }

    /// The state of the substream of `peer`, and `None` if it is closed.
    pub fn state_of(&self, peer: &PeerId) -> (r: Option<PeerState>)
        requires
            self.wf(),
        ensures
            match r {
                Some(state) => self@.is_in(peer@, state),
                None => !self@.peers.contains_key(peer@),
            },
    {
        match self.peers.get(peer) {
            Some(state) => Some(*state),
            None => None,
        }
    }

    fn establish(&mut self, peer: PeerId, service: ConnectionService) -> (r: NotificationOutcome)
        requires
            old(self).wf(),
        ensures
            final(self).wf(),
            final(self).event_handle() == old(self).event_handle(),
            final(self).sync_channel_size() == old(self).sync_channel_size(),
            final(self).async_channel_size() == old(self).async_channel_size(),
            final(self)@ == old(self)@.step(
                NotificationInputView::ConnectionEstablished { peer: peer@, service: service@ },
            ).0,
            r@ == old(self)@.step(
                NotificationInputView::ConnectionEstablished { peer: peer@, service: service@ },
            ).1,
            r.event is None,
    {
        let ghost key = peer@;
        let _ = self.connections.insert(peer, service);
        assert(self@.connections =~= old(self)@.connections.insert(key, service@));
        NotificationOutcome::nothing()
    }

    fn end_report(&self, peer: PeerId) -> (r: Option<InnerNotificationEvent>)
        requires
            self.wf(),
        ensures
            match r {
                Some(event) => self@.end_report(peer@) == Some(event@),
                None => self@.end_report(peer@) is None,
            },
            !(r matches Some(InnerNotificationEvent::NotificationStreamOpened { .. })),
    {
        match self.state_of(&peer) {
            Some(PeerState::Open) => Some(self.events.report_notification_stream_closed(peer)),
            Some(PeerState::Opening { direction: _ }) => Some(
                self.events.report_notification_stream_open_failure(
                    peer,
                    NotificationError::Cancelled,
                ),
            ),
            Some(PeerState::Validating) => None,
            None => None,
        }
    }

    fn close_connection(&mut self, peer: PeerId) -> (r: NotificationOutcome)
        requires
            old(self).wf(),
        ensures
            final(self).wf(),
            final(self).event_handle() == old(self).event_handle(),
            final(self).sync_channel_size() == old(self).sync_channel_size(),
            final(self).async_channel_size() == old(self).async_channel_size(),
            final(self)@ == old(self)@.step(
                NotificationInputView::ConnectionClosed { peer: peer@ },
            ).0,
            r@ == old(self)@.step(NotificationInputView::ConnectionClosed { peer: peer@ }).1,
            !(r.event matches Some(InnerNotificationEvent::NotificationStreamOpened { .. })),
    {
        let event = self.end_report(peer.clone());
        let _ = self.connections.remove(&peer);
        let _ = self.peers.remove(&peer);
        assert(self@.connections =~= old(self)@.connections.remove(peer@));
        NotificationOutcome { event, action: None }
    }

    fn end_substream(&mut self, peer: PeerId) -> (r: NotificationOutcome)
        requires
            old(self).wf(),
        ensures
            final(self).wf(),
            final(self).event_handle() == old(self).event_handle(),
            final(self).sync_channel_size() == old(self).sync_channel_size(),
            final(self).async_channel_size() == old(self).async_channel_size(),
            final(self)@ == old(self)@.step(
                NotificationInputView::SubstreamClosed { peer: peer@ },
            ).0,
            r@ == old(self)@.step(NotificationInputView::SubstreamClosed { peer: peer@ }).1,
            !(r.event matches Some(InnerNotificationEvent::NotificationStreamOpened { .. })),
    {
        let event = self.end_report(peer.clone());
        let _ = self.peers.remove(&peer);
        NotificationOutcome { event, action: None }
    }

    fn inbound_substream(&mut self, peer: PeerId, handshake: Vec<u8>) -> (r: NotificationOutcome)
        requires
            old(self).wf(),
        ensures
            final(self).wf(),
            final(self).event_handle() == old(self).event_handle(),
            final(self).sync_channel_size() == old(self).sync_channel_size(),
            final(self).async_channel_size() == old(self).async_channel_size(),
            final(self)@ == old(self)@.step(
                NotificationInputView::InboundSubstream { peer: peer@, handshake: handshake@ },
            ).0,
            r@ == old(self)@.step(
                NotificationInputView::InboundSubstream { peer: peer@, handshake: handshake@ },
            ).1,
            !(r.event matches Some(InnerNotificationEvent::NotificationStreamOpened { .. })),
    {
        if self.peers.contains_key(&peer) {
            return NotificationOutcome {
                event: None,
                action: Some(NotificationAction::RefuseSubstream { peer }),
            };
        }
        let _ = self.peers.insert(peer.clone(), PeerState::Validating);
        NotificationOutcome {
            event: Some(
                self.events.report_inbound_substream(self.protocol.clone(), peer, handshake),
            ),
            action: None,
        }
    }

    fn outbound_substream(&mut self, peer: PeerId, substream_id: SubstreamId) -> (r:
        NotificationOutcome)
        requires
            old(self).wf(),
        ensures
            final(self).wf(),
            final(self).event_handle() == old(self).event_handle(),
            final(self).sync_channel_size() == old(self).sync_channel_size(),
            final(self).async_channel_size() == old(self).async_channel_size(),
            final(self)@ == old(self)@.step(
                NotificationInputView::OutboundSubstream { peer: peer@, substream_id },
            ).0,
            r@ == old(self)@.step(
                NotificationInputView::OutboundSubstream { peer: peer@, substream_id },
            ).1,
            r.event is None,
    {
        let expected: bool = match self.state_of(&peer) {
            Some(PeerState::Opening { direction: Direction::Outbound(pending) }) => pending
                == substream_id,
            _ => false,
        };
        if expected {
            NotificationOutcome {
                event: None,
                action: Some(
                    NotificationAction::SendHandshake {
                        peer,
                        handshake: bytes_to_vec(self.handshake.as_slice()),
                    },
                ),
            }
        } else {
            NotificationOutcome {
                event: None,
                action: Some(NotificationAction::RefuseSubstream { peer }),
            }
        }
    }

    fn is_opening(&self, peer: &PeerId) -> (r: bool)
        requires
            self.wf(),
        ensures
            r == self@.is_opening(peer@),
    {
        match self.state_of(peer) {
            Some(PeerState::Opening { direction: _ }) => true,
            _ => false,
        }
    }

    fn is_open(&self, peer: &PeerId) -> (r: bool)
        requires
            self.wf(),
        ensures
            r == self@.is_in(peer@, PeerState::Open),
    {
        match self.state_of(peer) {
            Some(PeerState::Open) => true,
            _ => false,
        }
    }

    fn open_failure(&mut self, peer: PeerId) -> (r: NotificationOutcome)
        requires
            old(self).wf(),
        ensures
            final(self).wf(),
            final(self).event_handle() == old(self).event_handle(),
            final(self).sync_channel_size() == old(self).sync_channel_size(),
            final(self).async_channel_size() == old(self).async_channel_size(),
            final(self)@ == old(self)@.step(
                NotificationInputView::SubstreamOpenFailure { peer: peer@ },
            ).0,
            r@ == old(self)@.step(NotificationInputView::SubstreamOpenFailure { peer: peer@ }).1,
            !(r.event matches Some(InnerNotificationEvent::NotificationStreamOpened { .. })),
    {
        if self.is_opening(&peer) {
            let _ = self.peers.remove(&peer);
            NotificationOutcome {
                event: Some(
                    self.events.report_notification_stream_open_failure(
                        peer,
                        NotificationError::Rejected,
                    ),
                ),
                action: None,
            }
        } else {
            NotificationOutcome::nothing()
        }
    }

    fn handshake_received(&mut self, peer: PeerId, handshake: Vec<u8>) -> (r: NotificationOutcome)
        requires
            old(self).wf(),
        ensures
            final(self).wf(),
            final(self).event_handle() == old(self).event_handle(),
            final(self).sync_channel_size() == old(self).sync_channel_size(),
            final(self).async_channel_size() == old(self).async_channel_size(),
            final(self)@ == old(self)@.step(
                NotificationInputView::HandshakeReceived { peer: peer@, handshake: handshake@ },
            ).0,
            r@ == old(self)@.step(
                NotificationInputView::HandshakeReceived { peer: peer@, handshake: handshake@ },
            ).1,
            r.event matches Some(InnerNotificationEvent::NotificationStreamOpened { sink, .. })
                ==> sink.peer() == peer@,
    {
        if self.is_opening(&peer) {
            let (sync_tx, sync_rx) = bounded_channel::<Vec<u8>>(self.sync_channel_size);
            let (async_tx, async_rx) = bounded_channel::<Vec<u8>>(self.async_channel_size);
            let sink = NotificationSink::new(peer.clone(), sync_tx, async_tx);
            let _ = self.peers.insert(peer.clone(), PeerState::Open);
            NotificationOutcome {
                event: Some(
                    self.events.report_notification_stream_opened(
                        self.protocol.clone(),
                        peer.clone(),
                        handshake,
                        sink,
                    ),
                ),
                action: Some(NotificationAction::ServeSink { peer, sync_rx, async_rx }),
            }
        } else {
            NotificationOutcome::nothing()
        }
    }

    fn notification_received(&mut self, peer: PeerId, notification: Vec<u8>) -> (r:
        NotificationOutcome)
        requires
            old(self).wf(),
        ensures
            final(self).wf(),
            final(self).event_handle() == old(self).event_handle(),
            final(self).sync_channel_size() == old(self).sync_channel_size(),
            final(self).async_channel_size() == old(self).async_channel_size(),
            final(self)@ == old(self)@.step(
                NotificationInputView::NotificationReceived {
                    peer: peer@,
                    notification: notification@,
                },
            ).0,
            r@ == old(self)@.step(
                NotificationInputView::NotificationReceived {
                    peer: peer@,
                    notification: notification@,
                },
            ).1,
            !(r.event matches Some(InnerNotificationEvent::NotificationStreamOpened { .. })),
    {
        if self.is_open(&peer) {
            NotificationOutcome {
                event: Some(self.events.report_notification_received(peer, notification)),
                action: None,
            }
        } else {
            NotificationOutcome::nothing()
        }
    }

    fn open_substream(&mut self, peer: PeerId) -> (r: NotificationOutcome)
        requires
            old(self).wf(),
        ensures
            final(self).wf(),
            final(self).event_handle() == old(self).event_handle(),
            final(self).sync_channel_size() == old(self).sync_channel_size(),
            final(self).async_channel_size() == old(self).async_channel_size(),
            final(self)@ == old(self)@.command(
                NotificationCommandView::OpenSubstream { peer: peer@ },
            ).0,
            r@ == old(self)@.command(NotificationCommandView::OpenSubstream { peer: peer@ }).1,
            !(r.event matches Some(InnerNotificationEvent::NotificationStreamOpened { .. })),
    {
        if self.peers.contains_key(&peer) {
            return NotificationOutcome::nothing();
        }
        match self.connections.remove(&peer) {
            Some(service) => {
                let mut service = service;
                if service.is_exhausted() {
                    let ghost same = service;
                    let _ = self.connections.insert(peer.clone(), service);
                    assert(self.connections@ =~= old(self).connections@);
                    NotificationOutcome {
                        event: Some(
                            self.events.report_notification_stream_open_failure(
                                peer,
                                NotificationError::NoConnection,
                            ),
                        ),
                        action: None,
                    }
                } else {
                    let (substream_id, request) = service.open_substream();
                    let tx = clone_sender(service.sender());
                    let ghost updated = service@;
                    let _ = self.connections.insert(peer.clone(), service);
                    let _ = self.peers.insert(
                        peer.clone(),
                        PeerState::Opening { direction: Direction::Outbound(substream_id) },
                    );
                    assert(self@.connections =~= old(self)@.connections.insert(peer@, updated));
                    NotificationOutcome {
                        event: None,
                        action: Some(NotificationAction::OpenSubstream { peer, request, tx }),
                    }
                }
            },
            None => {
                assert(self.connections@ =~= old(self).connections@);
                NotificationOutcome {
                    event: Some(
                        self.events.report_notification_stream_open_failure(
                            peer,
                            NotificationError::NoConnection,
                        ),
                    ),
                    action: None,
                }
            },
        }
    }

    fn close_substream(&mut self, peer: PeerId) -> (r: NotificationOutcome)
        requires
            old(self).wf(),
        ensures
            final(self).wf(),
            final(self).event_handle() == old(self).event_handle(),
            final(self).sync_channel_size() == old(self).sync_channel_size(),
            final(self).async_channel_size() == old(self).async_channel_size(),
            final(self)@ == old(self)@.command(
                NotificationCommandView::CloseSubstream { peer: peer@ },
            ).0,
            r@ == old(self)@.command(NotificationCommandView::CloseSubstream { peer: peer@ }).1,
            !(r.event matches Some(InnerNotificationEvent::NotificationStreamOpened { .. })),
    {
        if self.is_open(&peer) {
            let _ = self.peers.remove(&peer);
            NotificationOutcome {
                event: Some(self.events.report_notification_stream_closed(peer.clone())),
                action: Some(NotificationAction::CloseSubstream { peer }),
            }
        } else {
            NotificationOutcome::nothing()
        }
    }

    fn substream_validated(&mut self, peer: PeerId, result: ValidationResult) -> (r:
        NotificationOutcome)
        requires
            old(self).wf(),
        ensures
            final(self).wf(),
            final(self).event_handle() == old(self).event_handle(),
            final(self).sync_channel_size() == old(self).sync_channel_size(),
            final(self).async_channel_size() == old(self).async_channel_size(),
            final(self)@ == old(self)@.command(
                NotificationCommandView::SubstreamValidated { peer: peer@, result },
            ).0,
            r@ == old(self)@.command(
                NotificationCommandView::SubstreamValidated { peer: peer@, result },
            ).1,
            r.event is None,
    {
        let validating: bool = match self.state_of(&peer) {
            Some(PeerState::Validating) => true,
            _ => false,
        };
        if !validating {
            return NotificationOutcome::nothing();
        }
        match result {
            ValidationResult::Accept => {
                let _ = self.peers.insert(
                    peer.clone(),
                    PeerState::Opening { direction: Direction::Inbound },
                );
                NotificationOutcome {
                    event: None,
                    action: Some(
                        NotificationAction::SendHandshake {
                            peer,
                            handshake: bytes_to_vec(self.handshake.as_slice()),
                        },
                    ),
                }
            },
            ValidationResult::Reject => {
                let _ = self.peers.remove(&peer);
                NotificationOutcome {
                    event: None,
                    action: Some(NotificationAction::CloseSubstream { peer }),
                }
            },
        }
    }

    fn on_command(&mut self, command: NotificationCommand) -> (r: NotificationOutcome)
        requires
            old(self).wf(),
        ensures
            final(self).wf(),
            final(self).event_handle() == old(self).event_handle(),
            final(self).sync_channel_size() == old(self).sync_channel_size(),
            final(self).async_channel_size() == old(self).async_channel_size(),
            final(self)@ == old(self)@.command(command@).0,
            r@ == old(self)@.command(command@).1,
            !(r.event matches Some(InnerNotificationEvent::NotificationStreamOpened { .. })),
    {
        match command {
            NotificationCommand::OpenSubstream { peer } => self.open_substream(peer),
            NotificationCommand::CloseSubstream { peer } => self.close_substream(peer),
            NotificationCommand::SetHandshake { handshake } => {
                self.handshake = handshake;
                NotificationOutcome::nothing()
            },
            NotificationCommand::SubstreamValidated { peer, result } => self.substream_validated(
                peer,
                result,
            ),
        }
    }

    /// Takes in what happened, moves the substream of the peer that it is
    /// about, and gives the event for the application and what is to be done
    /// on the connection. The sink of an opened stream sends to the peer of
    /// the stream, through two channels that are made for it with the sizes
    /// that the protocol was made with. A request for a substream goes into
    /// the channel of the handle of the connection.
    pub fn on_input(&mut self, input: NotificationInput) -> (r: NotificationOutcome)
        requires
            old(self).wf(),
        ensures
            final(self).wf(),
            final(self).event_handle() == old(self).event_handle(),
            final(self).sync_channel_size() == old(self).sync_channel_size(),
            final(self).async_channel_size() == old(self).async_channel_size(),
            final(self)@ == old(self)@.step(input@).0,
            r@ == old(self)@.step(input@).1,
            r.event matches Some(
                InnerNotificationEvent::NotificationStreamOpened { peer, sink, .. },
            ) ==> sink.peer() == peer@,
    {
        match input {
            NotificationInput::ConnectionEstablished { peer, service } => self.establish(
                peer,
                service,
            ),
            NotificationInput::ConnectionClosed { peer } => self.close_connection(peer),
            NotificationInput::InboundSubstream { peer, handshake } => self.inbound_substream(
                peer,
                handshake,
            ),
            NotificationInput::OutboundSubstream { peer, substream_id } => self.outbound_substream(
                peer,
                substream_id,
            ),
            NotificationInput::SubstreamOpenFailure { peer } => self.open_failure(peer),
            NotificationInput::HandshakeReceived { peer, handshake } => self.handshake_received(
                peer,
                handshake,
            ),
            NotificationInput::NotificationReceived { peer, notification } => {
                self.notification_received(peer, notification)
            },
            NotificationInput::SubstreamClosed { peer } => self.end_substream(peer),
            NotificationInput::Command(command) => self.on_command(command),
        }
    }
}

} // verus!
