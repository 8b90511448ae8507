//! Routing between a connection and the handlers of its protocols.
//!
//! A connection reports what happens on it to a [`ProtocolSet`], which says
//! to which handler each event goes. A handler asks for outbound substreams
//! through its [`ConnectionService`], which numbers the requests.

use vstd::prelude::*;
use tokio::sync::mpsc::{Receiver, Sender};
use crate::channel::{bounded_channel, clone_sender};
use crate::codec::ProtocolCodec;
use crate::context::{handler_of, TransportContext};
use crate::error::Error;
use crate::peer_id::PeerId;
use crate::types::{ProtocolName, SubstreamId, DEFAULT_CHANNEL_SIZE};

pub mod notification;

verus! {

/// Substream direction.
#[derive(Debug, Copy, Clone, PartialEq, Eq, Structural)]
pub enum Direction {
    /// Substream was opened by the remote peer.
    Inbound,
    /// Substream was opened by the local peer.
    Outbound(SubstreamId),
}

/// Events emitted by the installed protocols to transport.
#[derive(Debug)]
pub enum ProtocolEvent {
    /// Open substream.
    OpenSubstream {
        /// Protocol name.
        protocol: ProtocolName,
        /// Substream ID.
        ///
        /// Protocol allocates an ephemeral ID for outbound substreams which allows it to track
        /// the state of its pending substream. The ID is given back to protocol when the
        /// substream has been opened or has failed to open.
        substream_id: SubstreamId,
    },
}

/// What a [`ProtocolEvent`] says.
pub enum ProtocolEventView {
    /// Open substream.
    OpenSubstream { protocol: Seq<char>, substream_id: SubstreamId },
}

impl View for ProtocolEvent {
    type V = ProtocolEventView;

    open spec fn view(&self) -> ProtocolEventView {
        match self {
            ProtocolEvent::OpenSubstream { protocol, substream_id } => {
                ProtocolEventView::OpenSubstream {
                    protocol: protocol@,
                    substream_id: *substream_id,
                }
            },
        }
    }
}

/// Service provided to protocols by the transport protocol: the handle
/// through which one handler asks for outbound substreams on one connection.
///
/// The handle counts the substreams that it has asked for, and the count is
/// the identifier of the next one. There is one count for one handle: a
/// handle cannot be cloned, since two copies would count apart and issue the
/// same identifiers. Tasks that ask for substreams on the same connection
/// share the handle and take turns.
#[derive(Debug)]
pub struct ConnectionService {
    /// TX channel for sending events to transport.
    tx: Sender<ProtocolEvent>,
    /// Protocol name.
    protocol: ProtocolName,
    /// Next ephemeral substream ID.
    next_substream_id: SubstreamId,
}

/// What a [`ConnectionService`] holds.
pub struct ConnectionServiceView {
    /// Name of the handler's protocol.
    pub protocol: Seq<char>,
    /// The identifier that the next request gets.
    pub next_substream_id: SubstreamId,
    /// The sending end of the queue that carries the requests to the
    /// connection.
    pub channel: Sender<ProtocolEvent>,
}

impl ConnectionServiceView {
    /// The handle after one more request.
    pub open spec fn opened(self) -> ConnectionServiceView {
        ConnectionServiceView {
            next_substream_id: (self.next_substream_id + 1) as usize,
            ..self
        }
    }

    /// The handle after `n` more requests.
    pub open spec fn opened_times(self, n: nat) -> ConnectionServiceView
        decreases n,
    {
        if n == 0 {
            self
        } else {
            self.opened_times((n - 1) as nat).opened()
        }
    }

    /// The identifier that request number `n` gets, the first request
    /// having the number 0.
    pub open spec fn issued(self, n: nat) -> SubstreamId {
        self.opened_times(n).next_substream_id
    }
}

impl View for ConnectionService {
    type V = ConnectionServiceView;

    closed spec fn view(&self) -> ConnectionServiceView {
        ConnectionServiceView {
            protocol: self.protocol@,
            next_substream_id: self.next_substream_id,
            channel: self.tx,
        }
    }
}

impl ConnectionService {
    /// Create new [`ConnectionService`]. Its first substream gets the
    /// identifier 0.
    pub fn new(protocol: ProtocolName, tx: Sender<ProtocolEvent>) -> (r: ConnectionService)
        ensures
            r@ == (ConnectionServiceView {
                protocol: protocol@,
                next_substream_id: 0,
                channel: tx,
            }),
    {
        ConnectionService { tx, protocol, next_substream_id: 0usize }
    }

    /// Whether every identifier has been issued.
    pub fn is_exhausted(&self) -> (r: bool)
        ensures
            r == (self@.next_substream_id == usize::MAX),
    {
        self.next_substream_id == usize::MAX
    }

    /// The channel that carries the requests to the connection.
    pub fn sender(&self) -> (r: &Sender<ProtocolEvent>)
        ensures
            *r == self@.channel,
    {
        &self.tx
    }

    /// Get next ephemeral substream ID.
    fn next_substream_id(&mut self) -> (r: SubstreamId)
        requires
            old(self)@.next_substream_id < usize::MAX,
        ensures
            r == old(self)@.next_substream_id,
            final(self)@ == old(self)@.opened(),
    {
        let substream_id = self.next_substream_id;
        self.next_substream_id += 1;
        substream_id
    }

    /// Open substream to remote peer over `protocol`: issues the next
    /// identifier and gives the request to send to the connection. The
    /// identifiers count up from 0, so none is issued twice.
    pub fn open_substream(&mut self) -> (r: (SubstreamId, ProtocolEvent))
        requires
            old(self)@.next_substream_id < usize::MAX,
        ensures
            r.0 == old(self)@.next_substream_id,
            r.1@ == (ProtocolEventView::OpenSubstream {
                protocol: old(self)@.protocol,
                substream_id: r.0,
            }),
            final(self)@ == old(self)@.opened(),
    {
        let substream_id = self.next_substream_id();
        (substream_id, ProtocolEvent::OpenSubstream { protocol: self.protocol.clone(), substream_id })
    }
}

/// Request number `n` of a handle gets the identifier that is `n` above the
/// one that the handle started with.
pub proof fn lemma_issued_counts_up(service: ConnectionServiceView, n: nat)
    requires
        service.next_substream_id + n <= usize::MAX,
    ensures
        service.issued(n) == service.next_substream_id + n,
        service.opened_times(n).protocol == service.protocol,
        service.opened_times(n).channel == service.channel,
    decreases n,
{
    if n > 0 {
        lemma_issued_counts_up(service, (n - 1) as nat);
    }
}

/// The identifiers that one handle issues are pairwise distinct and grow in
/// the order of the requests, as long as the counter has not run out.
pub proof fn lemma_substream_ids_increase(service: ConnectionServiceView, i: nat, j: nat)
    requires
        i < j,
        service.next_substream_id + j <= usize::MAX,
    ensures
        service.issued(i) < service.issued(j),
{
    lemma_issued_counts_up(service, i);
    lemma_issued_counts_up(service, j);
}

/// Events emitted by a connection to protocols.
#[derive(Debug)]
pub enum ConnectionEvent {
    /// Connection established to `peer`.
    ConnectionEstablished {
        /// Peer ID.
        peer: PeerId,
        /// Handle for communicating with the connection.
        service: ConnectionService,
    },
    /// Connection closed.
    ConnectionClosed {
        /// Peer ID.
        peer: PeerId,
    },
    /// Substream opened for `peer`.
    SubstreamOpened {
        /// Peer ID.
        peer: PeerId,
        /// Protocol name that was used to negotiate the substream.
        protocol: ProtocolName,
        /// Substream direction.
        ///
        /// Informs the protocol whether the substream is inbound (opened by the remote node)
        /// or outbound (opened by the local node). Outbound substreams also contain the
        /// substream ID which allows the protocol to distinguish between different
        /// outbound substreams.
        direction: Direction,
        /// Framing strategy to read and write the substream with.
        codec: ProtocolCodec,
    },
    /// Failed to open substream.
    SubstreamOpenFailure {
        /// Peer Id.
        peer: PeerId,
        /// Error.
        error: Error,
    },
}

/// What a [`ConnectionEvent`] says.
pub enum ConnectionEventView {
    /// Connection established.
    ConnectionEstablished { peer: Seq<u8>, service: ConnectionServiceView },
    /// Connection closed.
    ConnectionClosed { peer: Seq<u8> },
    /// Substream opened.
    SubstreamOpened { peer: Seq<u8>, protocol: Seq<char>, direction: Direction, codec: ProtocolCodec },
    /// Failed to open substream.
    SubstreamOpenFailure { peer: Seq<u8>, error: Error },
}

impl View for ConnectionEvent {
    type V = ConnectionEventView;

    open spec fn view(&self) -> ConnectionEventView {
        match self {
            ConnectionEvent::ConnectionEstablished { peer, service } => {
                ConnectionEventView::ConnectionEstablished { peer: peer@, service: service@ }
            },
            ConnectionEvent::ConnectionClosed { peer } => ConnectionEventView::ConnectionClosed {
                peer: peer@,
            },
            ConnectionEvent::SubstreamOpened { peer, protocol, direction, codec } => {
                ConnectionEventView::SubstreamOpened {
                    peer: peer@,
                    protocol: protocol@,
                    direction: *direction,
                    codec: *codec,
                }
            },
            ConnectionEvent::SubstreamOpenFailure { peer, error } => {
                ConnectionEventView::SubstreamOpenFailure { peer: peer@, error: *error }
            },
        }
    }
}

impl ConnectionEventView {
    /// Whether the event reports a substream of `peer`, opened or failed.
    pub open spec fn is_substream_event_of(self, peer: Seq<u8>) -> bool {
        match self {
            ConnectionEventView::SubstreamOpened { peer: p, .. } => p == peer,
            ConnectionEventView::SubstreamOpenFailure { peer: p, .. } => p == peer,
            _ => false,
        }
    }

    /// Whether the event reports that the connection to `peer` stands.
    pub open spec fn is_established_of(self, peer: Seq<u8>) -> bool {
        self matches ConnectionEventView::ConnectionEstablished { peer: p, .. } && p == peer
    }
}

/// An event on its way to the handler that it is for.
#[derive(Debug)]
pub struct Delivery {
    /// The handler, by its position in the transport context.
    pub handler: usize,
    /// The event.
    pub event: ConnectionEvent,
}

/// What a [`Delivery`] says.
pub struct DeliveryView {
    /// The handler.
    pub handler: int,
    /// The event.
    pub event: ConnectionEventView,
}

impl View for Delivery {
    type V = DeliveryView;

    open spec fn view(&self) -> DeliveryView {
        DeliveryView { handler: self.handler as int, event: self.event@ }
    }
}

/// What a sequence of deliveries says.
pub open spec fn deliveries_view(deliveries: Seq<Delivery>) -> Seq<DeliveryView> {
    Seq::new(deliveries.len(), |i: int| deliveries[i]@)
}

/// The deliveries that announce the connection to `peer`: one to every
/// handler, in the order of registration, each with a fresh handle for the
/// handler's protocol, which sends into `channel`.
pub open spec fn established(
    names: Seq<Seq<char>>,
    peer: Seq<u8>,
    channel: Sender<ProtocolEvent>,
) -> Seq<DeliveryView> {
    Seq::new(
        names.len(),
        |i: int|
            DeliveryView {
                handler: i,
                event: ConnectionEventView::ConnectionEstablished {
                    peer,
                    service: ConnectionServiceView {
                        protocol: names[i],
                        next_substream_id: 0,
                        channel,
                    },
                },
            },
    )
}

/// What a connection reports to its router.
pub enum Report {
    /// A substream was opened.
    SubstreamOpen { peer: Seq<u8>, protocol: Seq<char>, direction: Direction },
    /// A substream failed to open.
    SubstreamOpenFailure { protocol: Seq<char>, peer: Seq<u8>, error: Error },
}

impl Report {
    /// The protocol that the report is about.
    pub open spec fn protocol(self) -> Seq<char> {
        match self {
            Report::SubstreamOpen { protocol, .. } => protocol,
            Report::SubstreamOpenFailure { protocol, .. } => protocol,
        }
    }
}

/// The delivery that a report leads to: the event goes to the handler of
/// the report's protocol, and to no handler if the protocol has none.
pub open spec fn routed(names: Seq<Seq<char>>, codecs: Seq<ProtocolCodec>, report: Report) -> Option<
    DeliveryView,
> {
    match handler_of(names, report.protocol()) {
        Some(handler) => Some(
            DeliveryView {
                handler,
                event: match report {
                    Report::SubstreamOpen { peer, protocol, direction } => {
                        ConnectionEventView::SubstreamOpened {
                            peer,
                            protocol,
                            direction,
                            codec: codecs[handler],
                        }
                    },
                    Report::SubstreamOpenFailure { peer, error, .. } => {
                        ConnectionEventView::SubstreamOpenFailure { peer, error }
                    },
                },
            },
        ),
        None => None,
    }
}

/// The deliveries that a sequence of reports leads to, in the order of the
/// reports. A report for an unregistered protocol leads to none.
pub open spec fn routed_all(
    names: Seq<Seq<char>>,
    codecs: Seq<ProtocolCodec>,
    reports: Seq<Report>,
) -> Seq<DeliveryView>
    decreases reports.len(),
{
    if reports.len() == 0 {
        Seq::empty()
    } else {
        let earlier = routed_all(names, codecs, reports.drop_last());
        match routed(names, codecs, reports.last()) {
            Some(delivery) => earlier.push(delivery),
            None => earlier,
        }
    }
}

/// All that the router of a connection to `peer` hands out: first the
/// announcements of the connection, with handles that send into `channel`,
/// then what the reports lead to.
pub open spec fn connection_deliveries(
    names: Seq<Seq<char>>,
    codecs: Seq<ProtocolCodec>,
    peer: Seq<u8>,
    channel: Sender<ProtocolEvent>,
    reports: Seq<Report>,
) -> Seq<DeliveryView> {
    established(names, peer, channel) + routed_all(names, codecs, reports)
}

/// A substream of one protocol goes to the handler that was registered under
/// that protocol, and so to the handler of no other protocol.
pub proof fn lemma_routed_to_own_handler(
    names: Seq<Seq<char>>,
    codecs: Seq<ProtocolCodec>,
    peer: Seq<u8>,
    protocol: Seq<char>,
    other: Seq<char>,
    direction: Direction,
)
    requires
        names.no_duplicates(),
        names.contains(protocol),
        names.contains(other),
        protocol != other,
    ensures
        routed(names, codecs, Report::SubstreamOpen { peer, protocol, direction }) matches Some(
            delivery,
        ) && {
            &&& 0 <= delivery.handler < names.len()
            &&& names[delivery.handler] == protocol
            &&& Some(delivery.handler) == handler_of(names, protocol)
            &&& Some(delivery.handler) != handler_of(names, other)
        },
{
}

/// What the reports lead to are substream events for handlers that exist.
pub proof fn lemma_routed_all_handlers(
    names: Seq<Seq<char>>,
    codecs: Seq<ProtocolCodec>,
    reports: Seq<Report>,
    j: int,
)
    requires
        0 <= j < routed_all(names, codecs, reports).len(),
    ensures
        0 <= routed_all(names, codecs, reports)[j].handler < names.len(),
    decreases reports.len(),
{
    if reports.len() > 0 {
        let earlier = routed_all(names, codecs, reports.drop_last());
        if j < earlier.len() {
            lemma_routed_all_handlers(names, codecs, reports.drop_last(), j);
        }
    }
}

/// A handler is told that the connection to a peer stands before it is told
/// of any substream of that peer, opened or failed: in what the router of
/// the connection hands out, every substream event of the peer comes after
/// the announcement of the connection to the same handler.
pub proof fn lemma_established_before_substreams(
    names: Seq<Seq<char>>,
    codecs: Seq<ProtocolCodec>,
    peer: Seq<u8>,
    channel: Sender<ProtocolEvent>,
    reports: Seq<Report>,
    j: int,
)
    requires
        0 <= j < connection_deliveries(names, codecs, peer, channel, reports).len(),
        connection_deliveries(names, codecs, peer, channel, reports)[j].event.is_substream_event_of(
            peer,
        ),
    ensures
        exists|i: int|
            0 <= i < j && (#[trigger] connection_deliveries(
                names,
                codecs,
                peer,
                channel,
                reports,
            )[i]).handler == connection_deliveries(names, codecs, peer, channel, reports)[j].handler
                && connection_deliveries(
                names,
                codecs,
                peer,
                channel,
                reports,
            )[i].event.is_established_of(peer),
{
    let all = connection_deliveries(names, codecs, peer, channel, reports);
    let first = established(names, peer, channel);
    assert(j >= first.len()) by {
        if j < first.len() {
            assert(all[j] == first[j]);
        }
    }
    assert(all[j] == routed_all(names, codecs, reports)[j - first.len()]);
    lemma_routed_all_handlers(names, codecs, reports, j - first.len());
    let i = all[j].handler;
    assert(all[i] == first[i]);
}

/// Supported protocol information.
///
/// Each connection gets a copy of [`ProtocolSet`] which allows it to interact
/// directly with installed protocols.
pub struct ProtocolSet {
    protocols: TransportContext,
    rx: Receiver<ProtocolEvent>,
    tx: Ghost<Sender<ProtocolEvent>>,
}

impl ProtocolSet {
    /// The installed protocols.
    pub closed spec fn protocols(&self) -> TransportContext {
        self.protocols
    }

    /// The queue of the requests of the handlers.
    pub closed spec fn queue(&self) -> Receiver<ProtocolEvent> {
        self.rx
    }

    /// The sending end of the queue of the requests, which was made together
    /// with the queue. The router keeps no handle on it: the queue ends when
    /// the handles of the handlers are gone.
    pub closed spec fn sender(&self) -> Sender<ProtocolEvent> {
        self.tx@
    }

    /// The names of the installed protocols, in the order of registration.
    pub open spec fn names(&self) -> Seq<Seq<char>> {
        self.protocols().names()
    }

    /// The framing strategies of the installed protocols.
    pub open spec fn codecs(&self) -> Seq<ProtocolCodec> {
        self.protocols().codecs()
    }

    /// No name is installed twice.
    pub open spec fn wf(&self) -> bool {
        self.protocols().wf()
    }

    /// Create new [`ProtocolSet`] and the `ConnectionEstablished` events for
    /// all installed protocols, which are to be sent before anything else.
    /// The queue of requests is made here, and the handle in every event
    /// sends into it.
    pub fn from_transport_context(peer: PeerId, context: TransportContext) -> (r: (
        ProtocolSet,
        Vec<Delivery>,
    ))
        requires
            context.wf(),
        ensures
            r.0.wf(),
            r.0.protocols() == context,
            r.1@.len() == context.names().len(),
            deliveries_view(r.1@) == established(context.names(), peer@, r.0.sender()),
    {
        let (tx, rx) = bounded_channel::<ProtocolEvent>(DEFAULT_CHANNEL_SIZE);
        let mut deliveries: Vec<Delivery> = Vec::new();
        let count: usize = context.len();
        let mut i: usize = 0;
        while i < count
            invariant
                i <= count,
                count == context.names().len(),
                deliveries@.len() == i,
                forall|j: int|
                    0 <= j < i ==> (#[trigger] deliveries@[j])@ == established(
                        context.names(),
                        peer@,
                        tx,
                    )[j],
            decreases count - i,
        {
            let service = ConnectionService::new(context.name(i).clone(), clone_sender(&tx));
            deliveries.push(
                Delivery {
                    handler: i,
                    event: ConnectionEvent::ConnectionEstablished { peer: peer.clone(), service },
                },
            );
            i += 1;
        }
        assert(deliveries_view(deliveries@) =~= established(context.names(), peer@, tx));
        (ProtocolSet { protocols: context, rx, tx: Ghost(tx) }, deliveries)
    }

    /// Report to `protocol` that substream was opened for `peer`: gives the
    /// event and the handler that it goes to, with the framing strategy that
    /// the protocol was registered with.
    pub fn report_substream_open(
        &mut self,
        peer: PeerId,
        protocol: ProtocolName,
        direction: Direction,
    ) -> (r: Result<Delivery, Error>)
        requires
            old(self).wf(),
        ensures
            *final(self) == *old(self),
            match routed(
                old(self).names(),
                old(self).codecs(),
                Report::SubstreamOpen { peer: peer@, protocol: protocol@, direction },
            ) {
                Some(delivery) => r is Ok && r->Ok_0@ == delivery,
                None => r matches Err(Error::ProtocolNotSupported(name)) && name@ == protocol@,
            },
    {
        match self.protocols.position(&protocol) {
            Some(handler) => {
                let codec = self.protocols.codec(handler);
                Ok(
                    Delivery {
                        handler,
                        event: ConnectionEvent::SubstreamOpened { peer, protocol, direction, codec },
                    },
                )
            },
            None => Err(Error::ProtocolNotSupported(protocol.to_string())),
        }
    }

    /// Report to `protocol` that connection failed to open substream for `peer`.
    pub fn report_substream_open_failure(
        &mut self,
        protocol: ProtocolName,
        peer: PeerId,
        error: Error,
    ) -> (r: Result<Delivery, Error>)
        requires
            old(self).wf(),
        ensures
            *final(self) == *old(self),
            match routed(
                old(self).names(),
                old(self).codecs(),
                Report::SubstreamOpenFailure { protocol: protocol@, peer: peer@, error },
            ) {
                Some(delivery) => r is Ok && r->Ok_0@ == delivery,
                None => r matches Err(Error::ProtocolNotSupported(name)) && name@ == protocol@,
            },
    {
        match self.protocols.position(&protocol) {
            Some(handler) => Ok(
                Delivery { handler, event: ConnectionEvent::SubstreamOpenFailure { peer, error } },
            ),
            None => Err(Error::ProtocolNotSupported(protocol.to_string())),
        }
    }

    /// The queue of the requests of all handlers, from which the connection
    /// takes the next one.
    pub fn receiver(&mut self) -> (r: &mut Receiver<ProtocolEvent>)
        ensures
            *r == old(self).queue(),
            final(self).queue() == *final(r),
            final(self).protocols() == old(self).protocols(),
            final(self).sender() == old(self).sender(),
    {
        &mut self.rx
    }
}

} // verus!
