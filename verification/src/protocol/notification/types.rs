//! Commands and events of the notification protocol.

use vstd::prelude::*;
use crate::error::NotificationError;
use crate::peer_id::PeerId;
use crate::protocol::notification::handle::NotificationSink;
use crate::types::ProtocolName;

verus! {

/// The application's verdict on an inbound substream.
#[derive(Debug, Clone, Copy, PartialEq, Eq, Structural)]
pub enum ValidationResult {
    /// Accept the inbound substream.
    Accept,
    /// Reject the inbound substream.
    Reject,
}

/// Commands sent by the application to the notification protocol.
#[derive(Debug)]
pub enum NotificationCommand {
    /// Open substream to peer.
    OpenSubstream {
        /// Peer ID.
        peer: PeerId,
    },
    /// Close substream to peer.
    CloseSubstream {
        /// Peer ID.
        peer: PeerId,
    },
    /// Set handshake.
    SetHandshake {
        /// Handshake.
        handshake: Vec<u8>,
    },
    /// Result of the validation of an inbound substream.
    SubstreamValidated {
        /// Peer ID.
        peer: PeerId,
        /// Validation result.
        result: ValidationResult,
    },
}

/// What a [`NotificationCommand`] says.
pub enum NotificationCommandView {
    /// Open substream to peer.
    OpenSubstream { peer: Seq<u8> },
    /// Close substream to peer.
    CloseSubstream { peer: Seq<u8> },
    /// Set handshake.
    SetHandshake { handshake: Seq<u8> },
    /// Result of the validation of an inbound substream.
    SubstreamValidated { peer: Seq<u8>, result: ValidationResult },
}

impl View for NotificationCommand {
    type V = NotificationCommandView;

    open spec fn view(&self) -> NotificationCommandView {
        match self {
            NotificationCommand::OpenSubstream { peer } => NotificationCommandView::OpenSubstream {
                peer: peer@,
            },
            NotificationCommand::CloseSubstream { peer } => {
                NotificationCommandView::CloseSubstream { peer: peer@ }
            },
            NotificationCommand::SetHandshake { handshake } => {
                NotificationCommandView::SetHandshake { handshake: handshake@ }
            },
            NotificationCommand::SubstreamValidated { peer, result } => {
                NotificationCommandView::SubstreamValidated { peer: peer@, result: *result }
            },
        }
    }
}

/// Events emitted by the notification protocol to the application.
#[derive(Debug)]
pub enum NotificationEvent {
    /// Validate substream.
    ValidateSubstream {
        /// Protocol name.
        protocol: ProtocolName,
        /// Peer ID.
        peer: PeerId,
        /// Handshake.
        handshake: Vec<u8>,
    },
    /// Notification stream opened.
    NotificationStreamOpened {
        /// Protocol name.
        protocol: ProtocolName,
        /// Peer ID.
        peer: PeerId,
        /// Handshake.
        handshake: Vec<u8>,
    },
    /// Notification stream closed.
    NotificationStreamClosed {
        /// Peer ID.
        peer: PeerId,
    },
    /// Failed to open notification stream.
    NotificationStreamOpenFailure {
        /// Peer ID.
        peer: PeerId,
        /// Error.
        error: NotificationError,
    },
    /// Notification received.
    NotificationReceived {
        /// Peer ID.
        peer: PeerId,
        /// Notification.
        notification: Vec<u8>,
    },
}

/// What an event of the notification protocol says.
pub enum NotificationEventView {
    /// Validate substream.
    ValidateSubstream { protocol: Seq<char>, peer: Seq<u8>, handshake: Seq<u8> },
    /// Notification stream opened.
    NotificationStreamOpened { protocol: Seq<char>, peer: Seq<u8>, handshake: Seq<u8> },
    /// Notification stream closed.
    NotificationStreamClosed { peer: Seq<u8> },
    /// Failed to open notification stream.
    NotificationStreamOpenFailure { peer: Seq<u8>, error: NotificationError },
    /// Notification received.
    NotificationReceived { peer: Seq<u8>, notification: Seq<u8> },
}

impl NotificationEventView {
    /// Whether the event says that the stream of `peer` was opened.
    pub open spec fn is_opened(self, peer: Seq<u8>) -> bool {
        self matches NotificationEventView::NotificationStreamOpened { peer: p, .. } && p == peer
    }

    /// Whether the event says that the stream of `peer` was closed.
    pub open spec fn is_closed(self, peer: Seq<u8>) -> bool {
        self matches NotificationEventView::NotificationStreamClosed { peer: p } && p == peer
    }

    /// Whether the event says that the stream of `peer` failed to open.
    pub open spec fn is_open_failure(self, peer: Seq<u8>) -> bool {
        self matches NotificationEventView::NotificationStreamOpenFailure { peer: p, .. } && p
            == peer
    }
}

impl View for NotificationEvent {
    type V = NotificationEventView;

    open spec fn view(&self) -> NotificationEventView {
        match self {
            NotificationEvent::ValidateSubstream { protocol, peer, handshake } => {
                NotificationEventView::ValidateSubstream {
                    protocol: protocol@,
                    peer: peer@,
                    handshake: handshake@,
                }
            },
            NotificationEvent::NotificationStreamOpened { protocol, peer, handshake } => {
                NotificationEventView::NotificationStreamOpened {
                    protocol: protocol@,
                    peer: peer@,
                    handshake: handshake@,
                }
            },
            NotificationEvent::NotificationStreamClosed { peer } => {
                NotificationEventView::NotificationStreamClosed { peer: peer@ }
            },
            NotificationEvent::NotificationStreamOpenFailure { peer, error } => {
                NotificationEventView::NotificationStreamOpenFailure { peer: peer@, error: *error }
            },
            NotificationEvent::NotificationReceived { peer, notification } => {
                NotificationEventView::NotificationReceived {
                    peer: peer@,
                    notification: notification@,
                }
            },
        }
    }
}

/// Events emitted by the notification protocol to the handle of the
/// application. An opened stream comes with the sink that sends into it.
#[derive(Debug)]
pub enum InnerNotificationEvent {
    /// Validate substream.
    ValidateSubstream {
        /// Protocol name.
        protocol: ProtocolName,
        /// Peer ID.
        peer: PeerId,
        /// Handshake.
        handshake: Vec<u8>,
    },
    /// Notification stream opened.
    NotificationStreamOpened {
        /// Protocol name.
        protocol: ProtocolName,
        /// Peer ID.
        peer: PeerId,
        /// Handshake.
        handshake: Vec<u8>,
        /// Notification sink.
        sink: NotificationSink,
    },
    /// Notification stream closed.
    NotificationStreamClosed {
        /// Peer ID.
        peer: PeerId,
    },
    /// Failed to open notification stream.
    NotificationStreamOpenFailure {
        /// Peer ID.
        peer: PeerId,
        /// Error.
        error: NotificationError,
    },
    /// Notification received.
    NotificationReceived {
        /// Peer ID.
        peer: PeerId,
        /// Notification.
        notification: Vec<u8>,
    },
}

impl View for InnerNotificationEvent {
    type V = NotificationEventView;

    open spec fn view(&self) -> NotificationEventView {
        match self {
            InnerNotificationEvent::ValidateSubstream { protocol, peer, handshake } => {
                NotificationEventView::ValidateSubstream {
                    protocol: protocol@,
                    peer: peer@,
                    handshake: handshake@,
                }
            },
            InnerNotificationEvent::NotificationStreamOpened { protocol, peer, handshake, sink } => {
                NotificationEventView::NotificationStreamOpened {
                    protocol: protocol@,
                    peer: peer@,
                    handshake: handshake@,
                }
            },
            InnerNotificationEvent::NotificationStreamClosed { peer } => {
                NotificationEventView::NotificationStreamClosed { peer: peer@ }
            },
            InnerNotificationEvent::NotificationStreamOpenFailure { peer, error } => {
                NotificationEventView::NotificationStreamOpenFailure { peer: peer@, error: *error }
            },
            InnerNotificationEvent::NotificationReceived { peer, notification } => {
                NotificationEventView::NotificationReceived {
                    peer: peer@,
                    notification: notification@,
                }
            },
        }
    }
}

} // verus!
