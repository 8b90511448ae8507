use litep2p::error::{Error, NotificationError};
use litep2p::peer_id::PeerId;
use litep2p::protocol::notification::handle::{
    async_send_result, sync_send_result, NotificationEventHandle, NotificationHandle,
    NotificationSink,
};
use litep2p::protocol::notification::types::{
    InnerNotificationEvent, NotificationCommand, NotificationEvent, ValidationResult,
};
use litep2p::protocol::notification::{
    NotificationAction, NotificationInput, NotificationOutcome, NotificationProtocol, PeerState,
};
use litep2p::protocol::{ConnectionEvent, ConnectionService, Direction, ProtocolEvent};
use litep2p::codec::ProtocolCodec;
use litep2p::types::ProtocolName;
use tokio::sync::mpsc::error::{SendError, TrySendError};
use tokio::sync::mpsc::{channel, Receiver};

fn peer(n: u8) -> PeerId {
    PeerId::from_key_encoding(&[n])
}

fn handle() -> NotificationHandle {
    let (_event_tx, event_rx) = channel::<InnerNotificationEvent>(8);
    let (command_tx, _command_rx) = channel::<NotificationCommand>(8);
    NotificationHandle::new(event_rx, command_tx)
}

fn protocol(sync_channel_size: usize) -> NotificationProtocol {
    let (event_tx, _event_rx) = channel::<InnerNotificationEvent>(8);
    NotificationProtocol::new(
        ProtocolName::new("/notif/1"),
        vec![9, 9],
        NotificationEventHandle::new(event_tx),
        sync_channel_size,
        2,
    )
}

fn service(name: &str) -> (ConnectionService, Receiver<ProtocolEvent>) {
    let (tx, rx) = channel(8);
    (ConnectionService::new(ProtocolName::new(name), tx), rx)
}

/// Opens the stream of `peer` from the remote side, and gives the event for
/// the handle and the two channels that the sink sends into.
fn open_inbound(
    engine: &mut NotificationProtocol,
    remote: PeerId,
) -> (InnerNotificationEvent, Receiver<Vec<u8>>, Receiver<Vec<u8>>) {
    engine.on_input(NotificationInput::InboundSubstream {
        peer: remote.clone(),
        handshake: vec![1],
    });
    engine.on_input(NotificationInput::Command(NotificationCommand::SubstreamValidated {
        peer: remote.clone(),
        result: ValidationResult::Accept,
    }));
    let outcome =
        engine.on_input(NotificationInput::HandshakeReceived { peer: remote, handshake: vec![1] });
    match outcome {
        NotificationOutcome {
            event: Some(event),
            action: Some(NotificationAction::ServeSink { sync_rx, async_rx, .. }),
        } => (event, sync_rx, async_rx),
        _ => panic!("the stream was not opened"),
    }
}

fn is_nothing(outcome: &NotificationOutcome) -> bool {
    outcome.event.is_none() && outcome.action.is_none()
}

#[test]
fn rejected_inbound_substream_is_never_opened() {
    let mut engine = protocol(4);
    let mut handle = handle();

    let outcome = engine.on_input(NotificationInput::InboundSubstream {
        peer: peer(0xb),
        handshake: vec![1, 2, 3, 4],
    });
    assert!(outcome.action.is_none());
    assert_eq!(engine.state_of(&peer(0xb)), Some(PeerState::Validating));
    match handle.next_event(outcome.event) {
        Some(NotificationEvent::ValidateSubstream { protocol, peer: from, handshake }) => {
            assert_eq!(protocol, ProtocolName::new("/notif/1"));
            assert_eq!(from, peer(0xb));
            assert_eq!(handshake, vec![1, 2, 3, 4]);
        }
        _ => panic!("the substream was not put up for validation"),
    }

    let command = handle.send_validation_result(peer(0xb), ValidationResult::Reject);
    let outcome = engine.on_input(NotificationInput::Command(command));
    assert!(outcome.event.is_none());
    assert!(matches!(
        outcome.action,
        Some(NotificationAction::CloseSubstream { peer: closed }) if closed == peer(0xb)
    ));
    assert_eq!(engine.state_of(&peer(0xb)), None);

    // whatever arrives for the rejected substream now opens nothing
    let late = engine.on_input(NotificationInput::HandshakeReceived {
        peer: peer(0xb),
        handshake: vec![1, 2, 3, 4],
    });
    assert!(is_nothing(&late));
    let late = engine.on_input(NotificationInput::Command(NotificationCommand::SubstreamValidated {
        peer: peer(0xb),
        result: ValidationResult::Accept,
    }));
    assert!(is_nothing(&late));
    assert!(!handle.is_open(&peer(0xb)));
}

#[test]
fn nothing_opens_before_the_verdict() {
    let mut engine = protocol(4);
    engine.on_input(NotificationInput::InboundSubstream { peer: peer(1), handshake: vec![1] });
    let inputs = vec![
        NotificationInput::HandshakeReceived { peer: peer(1), handshake: vec![1] },
        NotificationInput::OutboundSubstream { peer: peer(1), substream_id: 0 },
        NotificationInput::NotificationReceived { peer: peer(1), notification: vec![5] },
        NotificationInput::SubstreamOpenFailure { peer: peer(1) },
        NotificationInput::Command(NotificationCommand::SubstreamValidated {
            peer: peer(2),
            result: ValidationResult::Accept,
        }),
        NotificationInput::Command(NotificationCommand::CloseSubstream { peer: peer(1) }),
        NotificationInput::InboundSubstream { peer: peer(1), handshake: vec![2] },
    ];
    for input in inputs {
        let outcome = engine.on_input(input);
        assert!(outcome.event.is_none());
        assert_eq!(engine.state_of(&peer(1)), Some(PeerState::Validating));
    }
    let outcome = engine.on_input(NotificationInput::Command(
        NotificationCommand::SubstreamValidated { peer: peer(1), result: ValidationResult::Accept },
    ));
    assert!(outcome.event.is_none());
    assert!(matches!(
        outcome.action,
        Some(NotificationAction::SendHandshake { handshake, .. }) if handshake == vec![9, 9]
    ));
    assert_eq!(
        engine.state_of(&peer(1)),
        Some(PeerState::Opening { direction: Direction::Inbound })
    );
    let outcome =
        engine.on_input(NotificationInput::HandshakeReceived { peer: peer(1), handshake: vec![1] });
    assert!(matches!(
        outcome.event,
        Some(InnerNotificationEvent::NotificationStreamOpened { .. })
    ));
    assert_eq!(engine.state_of(&peer(1)), Some(PeerState::Open));
}

#[test]
fn second_inbound_substream_is_refused() {
    let mut engine = protocol(4);
    engine.on_input(NotificationInput::InboundSubstream { peer: peer(1), handshake: vec![1] });
    let outcome =
        engine.on_input(NotificationInput::InboundSubstream { peer: peer(1), handshake: vec![2] });
    assert!(outcome.event.is_none());
    assert!(matches!(
        outcome.action,
        Some(NotificationAction::RefuseSubstream { peer: refused }) if refused == peer(1)
    ));
}

#[test]
fn outbound_stream_opens_after_the_handshakes() {
    let mut engine = protocol(4);
    let (connection, mut requests) = service("/notif/1");
    let outcome = engine
        .on_input(NotificationInput::ConnectionEstablished { peer: peer(1), service: connection });
    assert!(is_nothing(&outcome));

    let outcome = engine
        .on_input(NotificationInput::Command(NotificationCommand::OpenSubstream { peer: peer(1) }));
    assert!(outcome.event.is_none());
    match outcome.action {
        Some(NotificationAction::OpenSubstream { peer: to, request, tx }) => {
            assert_eq!(to, peer(1));
            tx.try_send(request).unwrap();
        }
        _ => panic!("no substream was asked for"),
    }
    match requests.try_recv().unwrap() {
        ProtocolEvent::OpenSubstream { protocol, substream_id } => {
            assert_eq!(protocol, ProtocolName::new("/notif/1"));
            assert_eq!(substream_id, 0);
        }
    }
    assert_eq!(
        engine.state_of(&peer(1)),
        Some(PeerState::Opening { direction: Direction::Outbound(0) })
    );

    // a substream under another identifier is not the one that was asked for
    let outcome =
        engine.on_input(NotificationInput::OutboundSubstream { peer: peer(1), substream_id: 1 });
    assert!(matches!(outcome.action, Some(NotificationAction::RefuseSubstream { .. })));

    let input = NotificationInput::from_connection_event(ConnectionEvent::SubstreamOpened {
        peer: peer(1),
        protocol: ProtocolName::new("/notif/1"),
        direction: Direction::Outbound(0),
        codec: ProtocolCodec::UnsignedVarint,
    })
    .unwrap();
    let outcome = engine.on_input(input);
    assert!(outcome.event.is_none());
    assert!(matches!(
        outcome.action,
        Some(NotificationAction::SendHandshake { peer: to, handshake })
            if to == peer(1) && handshake == vec![9, 9]
    ));

    let outcome = engine
        .on_input(NotificationInput::HandshakeReceived { peer: peer(1), handshake: vec![4, 2] });
    match outcome.event {
        Some(InnerNotificationEvent::NotificationStreamOpened {
            protocol,
            peer: from,
            handshake,
            ..
        }) => {
            assert_eq!(protocol, ProtocolName::new("/notif/1"));
            assert_eq!(from, peer(1));
            assert_eq!(handshake, vec![4, 2]);
        }
        _ => panic!("the stream was not opened"),
    }
    assert!(matches!(outcome.action, Some(NotificationAction::ServeSink { .. })));
    assert_eq!(engine.state_of(&peer(1)), Some(PeerState::Open));
}

#[test]
fn second_request_on_a_connection_gets_the_next_identifier() {
    let mut engine = protocol(4);
    let (connection, _requests) = service("/notif/1");
    engine.on_input(NotificationInput::ConnectionEstablished { peer: peer(1), service: connection });
    engine.on_input(NotificationInput::Command(NotificationCommand::OpenSubstream { peer: peer(1) }));
    engine.on_input(NotificationInput::SubstreamOpenFailure { peer: peer(1) });
    let outcome = engine
        .on_input(NotificationInput::Command(NotificationCommand::OpenSubstream { peer: peer(1) }));
    match outcome.action {
        Some(NotificationAction::OpenSubstream {
            request: ProtocolEvent::OpenSubstream { substream_id, .. },
            ..
        }) => assert_eq!(substream_id, 1),
        _ => panic!("no substream was asked for"),
    }
}

#[test]
fn request_without_connection_fails() {
    let mut engine = protocol(4);
    let outcome = engine
        .on_input(NotificationInput::Command(NotificationCommand::OpenSubstream { peer: peer(1) }));
    assert!(outcome.action.is_none());
    assert!(matches!(
        outcome.event,
        Some(InnerNotificationEvent::NotificationStreamOpenFailure {
            peer: failed,
            error: NotificationError::NoConnection,
        }) if failed == peer(1)
    ));
    assert_eq!(engine.state_of(&peer(1)), None);
}

#[test]
fn failed_substream_is_reported_and_closed() {
    let mut engine = protocol(4);
    let (connection, _requests) = service("/notif/1");
    engine.on_input(NotificationInput::ConnectionEstablished { peer: peer(1), service: connection });
    engine.on_input(NotificationInput::Command(NotificationCommand::OpenSubstream { peer: peer(1) }));
    let input = NotificationInput::from_connection_event(ConnectionEvent::SubstreamOpenFailure {
        peer: peer(1),
        error: Error::EssentialTaskClosed,
    })
    .unwrap();
    let outcome = engine.on_input(input);
    assert!(matches!(
        outcome.event,
        Some(InnerNotificationEvent::NotificationStreamOpenFailure {
            peer: failed,
            error: NotificationError::Rejected,
        }) if failed == peer(1)
    ));
    assert_eq!(engine.state_of(&peer(1)), None);
    // a failure for a peer that opens nothing is passed over
    let outcome = engine.on_input(NotificationInput::SubstreamOpenFailure { peer: peer(1) });
    assert!(is_nothing(&outcome));
}

#[test]
fn closed_connection_ends_the_substream() {
    // open stream: reported as closed
    let mut engine = protocol(4);
    let _open = open_inbound(&mut engine, peer(1));
    let input =
        NotificationInput::from_connection_event(ConnectionEvent::ConnectionClosed { peer: peer(1) })
            .unwrap();
    let outcome = engine.on_input(input);
    assert!(matches!(
        outcome.event,
        Some(InnerNotificationEvent::NotificationStreamClosed { peer: closed }) if closed == peer(1)
    ));
    assert_eq!(engine.state_of(&peer(1)), None);

    // opening stream: reported as failed
    let (connection, _requests) = service("/notif/1");
    engine.on_input(NotificationInput::ConnectionEstablished { peer: peer(2), service: connection });
    engine.on_input(NotificationInput::Command(NotificationCommand::OpenSubstream { peer: peer(2) }));
    let outcome = engine.on_input(NotificationInput::ConnectionClosed { peer: peer(2) });
    assert!(matches!(
        outcome.event,
        Some(InnerNotificationEvent::NotificationStreamOpenFailure {
            error: NotificationError::Cancelled,
            ..
        })
    ));
    // the connection is gone, so no substream can be asked for
    let outcome = engine
        .on_input(NotificationInput::Command(NotificationCommand::OpenSubstream { peer: peer(2) }));
    assert!(matches!(
        outcome.event,
        Some(InnerNotificationEvent::NotificationStreamOpenFailure {
            error: NotificationError::NoConnection,
            ..
        })
    ));

    // validating substream: dropped without a word
    engine.on_input(NotificationInput::InboundSubstream { peer: peer(3), handshake: vec![] });
    let outcome = engine.on_input(NotificationInput::ConnectionClosed { peer: peer(3) });
    assert!(is_nothing(&outcome));
    assert_eq!(engine.state_of(&peer(3)), None);

    // no substream at all
    let outcome = engine.on_input(NotificationInput::SubstreamClosed { peer: peer(4) });
    assert!(is_nothing(&outcome));
}

#[test]
fn application_closes_an_open_stream() {
    let mut engine = protocol(4);
    let mut handle = handle();
    assert!(handle.close_substream(peer(1)).is_none());
    let (event, _sync_rx, _async_rx) = open_inbound(&mut engine, peer(1));
    handle.next_event(Some(event));

    let command = handle.close_substream(peer(1)).unwrap();
    assert!(matches!(&command, NotificationCommand::CloseSubstream { peer: p } if *p == peer(1)));
    let outcome = engine.on_input(NotificationInput::Command(command));
    assert!(matches!(
        outcome.action,
        Some(NotificationAction::CloseSubstream { peer: closed }) if closed == peer(1)
    ));
    assert!(handle.is_open(&peer(1)));
    let event = handle.next_event(outcome.event);
    assert!(matches!(
        event,
        Some(NotificationEvent::NotificationStreamClosed { peer: closed }) if closed == peer(1)
    ));
    assert!(!handle.is_open(&peer(1)));
    assert_eq!(engine.state_of(&peer(1)), None);

    // closing what is not open does nothing
    let outcome = engine
        .on_input(NotificationInput::Command(NotificationCommand::CloseSubstream { peer: peer(1) }));
    assert!(is_nothing(&outcome));
}

#[test]
fn received_notifications_reach_the_application() {
    let mut engine = protocol(4);
    let mut handle = handle();
    let early = engine.on_input(NotificationInput::NotificationReceived {
        peer: peer(1),
        notification: vec![1],
    });
    assert!(is_nothing(&early));
    let (event, _sync_rx, _async_rx) = open_inbound(&mut engine, peer(1));
    handle.next_event(Some(event));
    let outcome = engine.on_input(NotificationInput::NotificationReceived {
        peer: peer(1),
        notification: vec![7, 7, 7],
    });
    match handle.next_event(outcome.event) {
        Some(NotificationEvent::NotificationReceived { peer: from, notification }) => {
            assert_eq!(from, peer(1));
            assert_eq!(notification, vec![7, 7, 7]);
        }
        _ => panic!("the notification was lost"),
    }
    assert!(handle.is_open(&peer(1)));
}

#[test]
fn new_handshake_is_used_for_later_substreams() {
    let mut engine = protocol(4);
    let mut handle = handle();
    engine.on_input(NotificationInput::InboundSubstream { peer: peer(1), handshake: vec![] });
    let command = handle.set_handshake(vec![3, 1, 4]);
    assert!(matches!(
        &command,
        NotificationCommand::SetHandshake { handshake } if *handshake == vec![3, 1, 4]
    ));
    let outcome = engine.on_input(NotificationInput::Command(command));
    assert!(is_nothing(&outcome));
    assert_eq!(engine.state_of(&peer(1)), Some(PeerState::Validating));
    let outcome = engine.on_input(NotificationInput::Command(
        NotificationCommand::SubstreamValidated { peer: peer(1), result: ValidationResult::Accept },
    ));
    assert!(matches!(
        outcome.action,
        Some(NotificationAction::SendHandshake { handshake, .. }) if handshake == vec![3, 1, 4]
    ));
}

#[test]
fn inbound_substream_is_no_input_before_its_handshake() {
    let input = NotificationInput::from_connection_event(ConnectionEvent::SubstreamOpened {
        peer: peer(1),
        protocol: ProtocolName::new("/notif/1"),
        direction: Direction::Inbound,
        codec: ProtocolCodec::UnsignedVarint,
    });
    assert!(input.is_none());
    let (connection, _requests) = service("/notif/1");
    let input = NotificationInput::from_connection_event(ConnectionEvent::ConnectionEstablished {
        peer: peer(1),
        service: connection,
    });
    assert!(matches!(
        input,
        Some(NotificationInput::ConnectionEstablished { peer: p, .. }) if p == peer(1)
    ));
}

#[test]
fn peer_table_follows_the_events() {
    let mut engine = protocol(4);
    let mut handle = handle();
    assert!(!handle.is_open(&peer(1)));

    // a failure to open a stream that is not in the table leaves the table alone
    let outcome = engine
        .on_input(NotificationInput::Command(NotificationCommand::OpenSubstream { peer: peer(1) }));
    assert!(matches!(
        handle.next_event(outcome.event),
        Some(NotificationEvent::NotificationStreamOpenFailure { .. })
    ));
    assert!(!handle.is_open(&peer(1)));

    // validation does not open
    let outcome =
        engine.on_input(NotificationInput::InboundSubstream { peer: peer(1), handshake: vec![1] });
    handle.next_event(outcome.event);
    assert!(!handle.is_open(&peer(1)));
    engine.on_input(NotificationInput::Command(NotificationCommand::SubstreamValidated {
        peer: peer(1),
        result: ValidationResult::Accept,
    }));
    assert!(!handle.is_open(&peer(1)));

    // the opened stream is in the table, and only it
    let outcome =
        engine.on_input(NotificationInput::HandshakeReceived { peer: peer(1), handshake: vec![1] });
    assert!(matches!(
        handle.next_event(outcome.event),
        Some(NotificationEvent::NotificationStreamOpened { .. })
    ));
    assert!(handle.is_open(&peer(1)));
    assert!(!handle.is_open(&peer(2)));

    // a stream of another peer does not touch it
    let (event, _sync_rx, _async_rx) = open_inbound(&mut engine, peer(2));
    handle.next_event(Some(event));
    let outcome = engine.on_input(NotificationInput::SubstreamClosed { peer: peer(2) });
    handle.next_event(outcome.event);
    assert!(handle.is_open(&peer(1)));
    assert!(!handle.is_open(&peer(2)));

    // the closed stream leaves the table
    let outcome = engine.on_input(NotificationInput::SubstreamClosed { peer: peer(1) });
    assert!(matches!(
        handle.next_event(outcome.event),
        Some(NotificationEvent::NotificationStreamClosed { .. })
    ));
    assert!(!handle.is_open(&peer(1)));
    assert_eq!(engine.state_of(&peer(1)), None);
}

#[test]
fn failure_to_open_takes_the_peer_out_of_the_table() {
    let mut engine = protocol(4);
    let mut handle = handle();
    for n in [1, 2] {
        let (event, _sync_rx, _async_rx) = open_inbound(&mut engine, peer(n));
        handle.next_event(Some(event));
    }
    assert!(handle.is_open(&peer(1)) && handle.is_open(&peer(2)));

    let seen = handle.next_event(Some(InnerNotificationEvent::NotificationStreamOpenFailure {
        peer: peer(1),
        error: NotificationError::Rejected,
    }));
    assert!(matches!(
        seen,
        Some(NotificationEvent::NotificationStreamOpenFailure {
            peer: failed,
            error: NotificationError::Rejected,
        }) if failed == peer(1)
    ));
    // the last word on the stream of the peer is no longer that it was opened
    assert!(!handle.is_open(&peer(1)));
    assert!(handle.is_open(&peer(2)));
    assert_eq!(handle.send_sync_notification(peer(1), vec![1]), Ok(()));
    assert!(matches!(
        handle.send_async_notification(peer(1), vec![1]),
        Err(Error::PeerDoesntExist(missing)) if missing == peer(1)
    ));
    assert!(handle.open_substream(peer(1)).is_ok());

    // a second failure finds nothing to take out
    handle.next_event(Some(InnerNotificationEvent::NotificationStreamOpenFailure {
        peer: peer(1),
        error: NotificationError::Cancelled,
    }));
    assert!(!handle.is_open(&peer(1)));
    assert!(handle.is_open(&peer(2)));
}

#[test]
fn notifications_go_into_the_channels_of_the_sink_of_their_peer() {
    let mut handle = handle();
    let mut receivers = Vec::new();
    let mut senders = Vec::new();
    for n in [1, 2] {
        let (sync_tx, sync_rx) = channel::<Vec<u8>>(2);
        let (async_tx, async_rx) = channel::<Vec<u8>>(2);
        let sink = NotificationSink::new(peer(n), sync_tx.clone(), async_tx.clone());
        handle.next_event(Some(InnerNotificationEvent::NotificationStreamOpened {
            protocol: ProtocolName::new("/notif/1"),
            peer: peer(n),
            handshake: vec![],
            sink,
        }));
        senders.push((sync_tx, async_tx));
        receivers.push((sync_rx, async_rx));
    }

    for (index, n) in [1u8, 2].into_iter().enumerate() {
        let other = 1 - index;
        let sync_sender = handle.sync_sender(&peer(n)).unwrap();
        assert!(sync_sender.same_channel(&senders[index].0));
        assert!(!sync_sender.same_channel(&senders[index].1));
        assert!(!sync_sender.same_channel(&senders[other].0));
        let async_sender = handle.async_sender(&peer(n)).unwrap();
        assert!(async_sender.same_channel(&senders[index].1));
        assert!(!async_sender.same_channel(&senders[index].0));
        assert!(!async_sender.same_channel(&senders[other].1));
    }
    assert!(handle.sync_sender(&peer(3)).is_none());
    assert!(handle.async_sender(&peer(3)).is_none());

    // a synchronous notification arrives in the sync channel of its peer only
    assert_eq!(handle.send_sync_notification(peer(2), vec![7, 7]), Ok(()));
    assert_eq!(receivers[1].0.try_recv().unwrap(), vec![7, 7]);
    assert!(receivers[1].1.try_recv().is_err());
    assert!(receivers[0].0.try_recv().is_err());
    assert!(receivers[0].1.try_recv().is_err());

    // an asynchronous notification is for the async channel of its peer only
    let send = handle.send_async_notification(peer(1), vec![8]).unwrap();
    assert_eq!(send.peer, peer(1));
    assert!(send.tx.same_channel(&senders[0].1));
    send.tx.try_send(send.notification).unwrap();
    assert_eq!(receivers[0].1.try_recv().unwrap(), vec![8]);
    assert!(receivers[0].0.try_recv().is_err());
    assert!(receivers[1].0.try_recv().is_err());
    assert!(receivers[1].1.try_recv().is_err());
}

#[test]
fn sink_hands_out_its_own_channels() {
    let (sync_tx, _sync_rx) = channel::<Vec<u8>>(1);
    let (async_tx, mut async_rx) = channel::<Vec<u8>>(1);
    let mut sink = NotificationSink::new(peer(1), sync_tx.clone(), async_tx.clone());
    assert!(sink.sync_sender().same_channel(&sync_tx));
    assert!(sink.async_sender().same_channel(&async_tx));
    assert!(!sink.sync_sender().same_channel(&async_tx));
    let send = sink.send_async_notification(vec![5]);
    assert!(send.tx.same_channel(&async_tx));
    // the channel that was handed out outlives the sink
    drop(sink);
    drop(async_tx);
    send.tx.try_send(send.notification).unwrap();
    assert_eq!(async_rx.try_recv().unwrap(), vec![5]);
}

#[test]
fn request_for_a_substream_goes_into_the_channel_of_the_connection() {
    let mut engine = protocol(4);
    let (first, mut first_requests) = service("/notif/1");
    let (second, mut second_requests) = service("/notif/1");
    let first_tx = first.sender().clone();
    let second_tx = second.sender().clone();
    engine.on_input(NotificationInput::ConnectionEstablished { peer: peer(1), service: first });
    engine.on_input(NotificationInput::ConnectionEstablished { peer: peer(2), service: second });
    let outcome = engine
        .on_input(NotificationInput::Command(NotificationCommand::OpenSubstream { peer: peer(2) }));
    match outcome.action {
        Some(NotificationAction::OpenSubstream { peer: to, request, tx }) => {
            assert_eq!(to, peer(2));
            assert!(tx.same_channel(&second_tx));
            assert!(!tx.same_channel(&first_tx));
            tx.try_send(request).unwrap();
        }
        _ => panic!("no substream was asked for"),
    }
    assert!(second_requests.try_recv().is_ok());
    assert!(first_requests.try_recv().is_err());
}

#[test]
fn end_of_the_event_channel_ends_the_events() {
    let mut handle = handle();
    assert!(handle.next_event(None).is_none());
    assert!(handle.event_receiver().try_recv().is_err());
}

#[test]
fn open_substream_is_refused_for_an_open_peer() {
    let mut engine = protocol(4);
    let mut handle = handle();
    match handle.open_substream(peer(1)) {
        Ok(NotificationCommand::OpenSubstream { peer: to }) => assert_eq!(to, peer(1)),
        _ => panic!("no command to open the substream"),
    }
    let (event, _sync_rx, _async_rx) = open_inbound(&mut engine, peer(1));
    handle.next_event(Some(event));
    match handle.open_substream(peer(1)) {
        Err(Error::PeerAlreadyExists(existing)) => assert_eq!(existing, peer(1)),
        _ => panic!("a second substream was asked for"),
    }
    assert!(handle.open_substream(peer(2)).is_ok());
}

#[test]
fn commands_go_into_the_command_channel() {
    let (_event_tx, event_rx) = channel::<InnerNotificationEvent>(8);
    let (command_tx, mut command_rx) = channel::<NotificationCommand>(8);
    let handle = NotificationHandle::new(event_rx, command_tx);
    let command = handle.send_validation_result(peer(1), ValidationResult::Accept);
    handle.command_sender().try_send(command).unwrap();
    assert!(matches!(
        command_rx.try_recv(),
        Ok(NotificationCommand::SubstreamValidated { peer: p, result: ValidationResult::Accept })
            if p == peer(1)
    ));
}

#[test]
fn sync_channel_takes_as_many_notifications_as_it_holds() {
    let mut engine = protocol(4);
    let mut handle = handle();
    let (event, mut sync_rx, _async_rx) = open_inbound(&mut engine, peer(1));
    handle.next_event(Some(event));

    let results: Vec<Result<(), NotificationError>> =
        (0..10u8).map(|n| handle.send_sync_notification(peer(1), vec![n])).collect();
    assert_eq!(results.iter().filter(|r| r.is_ok()).count(), 4);
    assert_eq!(
        results.iter().filter(|r| **r == Err(NotificationError::ChannelClogged)).count(),
        6
    );
    assert_eq!(&results[..4], &[Ok(()), Ok(()), Ok(()), Ok(())]);

    // what was taken is what arrives, in order
    for n in 0..4u8 {
        assert_eq!(sync_rx.try_recv().unwrap(), vec![n]);
    }
    assert!(sync_rx.try_recv().is_err());
    // once drained, the channel takes notifications again
    assert_eq!(handle.send_sync_notification(peer(1), vec![10]), Ok(()));
    assert_eq!(sync_rx.try_recv().unwrap(), vec![10]);
}

#[test]
fn sync_channel_of_one() {
    let mut engine = protocol(1);
    let mut handle = handle();
    let (event, _sync_rx, _async_rx) = open_inbound(&mut engine, peer(1));
    handle.next_event(Some(event));
    assert_eq!(handle.send_sync_notification(peer(1), vec![1]), Ok(()));
    assert_eq!(
        handle.send_sync_notification(peer(1), vec![2]),
        Err(NotificationError::ChannelClogged)
    );
    assert_eq!(
        handle.send_sync_notification(peer(1), vec![3]),
        Err(NotificationError::ChannelClogged)
    );
}

#[test]
fn sync_notification_to_a_closed_peer_is_dropped() {
    let mut handle = handle();
    assert_eq!(handle.send_sync_notification(peer(1), vec![1, 2, 3]), Ok(()));
}

#[test]
fn sync_notification_after_the_stream_has_gone() {
    let mut engine = protocol(4);
    let mut handle = handle();
    let (event, sync_rx, async_rx) = open_inbound(&mut engine, peer(1));
    handle.next_event(Some(event));
    drop(sync_rx);
    drop(async_rx);
    // the handle has not yet heard of the end of the stream
    assert_eq!(
        handle.send_sync_notification(peer(1), vec![1]),
        Err(NotificationError::ChannelClogged)
    );
    let outcome = engine.on_input(NotificationInput::SubstreamClosed { peer: peer(1) });
    handle.next_event(outcome.event);
    assert_eq!(handle.send_sync_notification(peer(1), vec![1]), Ok(()));
}

#[test]
fn async_notification_goes_into_the_async_channel() {
    let mut engine = protocol(4);
    let mut handle = handle();
    let (event, mut sync_rx, mut async_rx) = open_inbound(&mut engine, peer(1));
    handle.next_event(Some(event));
    let send = handle.send_async_notification(peer(1), vec![4, 5]).unwrap();
    assert_eq!(send.peer, peer(1));
    assert_eq!(send.notification, vec![4, 5]);
    let outcome = send.tx.try_send(send.notification).map_err(|e| match e {
        TrySendError::Full(n) | TrySendError::Closed(n) => SendError(n),
    });
    assert!(async_send_result(send.peer, outcome).is_ok());
    assert_eq!(async_rx.try_recv().unwrap(), vec![4, 5]);
    assert!(sync_rx.try_recv().is_err());
}

#[test]
fn async_notification_to_a_closed_peer_fails() {
    let mut handle = handle();
    match handle.send_async_notification(peer(1), vec![1]) {
        Err(Error::PeerDoesntExist(missing)) => assert_eq!(missing, peer(1)),
        _ => panic!("a notification was sent to a closed peer"),
    }
}

#[test]
fn pending_async_notification_fails_when_the_peer_disconnects() {
    let mut engine = protocol(4);
    let mut handle = handle();
    let (event, _sync_rx, async_rx) = open_inbound(&mut engine, peer(1));
    handle.next_event(Some(event));
    // fill the async channel, which holds two notifications
    for n in 0..2u8 {
        let send = handle.send_async_notification(peer(1), vec![n]).unwrap();
        send.tx.try_send(send.notification).unwrap();
    }
    let send = handle.send_async_notification(peer(1), vec![2]).unwrap();
    let runtime = tokio::runtime::Builder::new_current_thread().build().unwrap();
    let result = runtime.block_on(async move {
        let tx = send.tx;
        let notification = send.notification;
        let pending = tokio::spawn(async move { tx.send(notification).await });
        // let the send start and find the channel full
        tokio::task::yield_now().await;
        assert!(!pending.is_finished());
        // the peer disconnects: the task that serves the sink goes away
        drop(async_rx);
        let outcome = pending.await.unwrap();
        async_send_result(send.peer, outcome)
    });
    match result {
        Err(Error::PeerDoesntExist(missing)) => assert_eq!(missing, peer(1)),
        _ => panic!("the pending notification did not fail"),
    }
}

#[test]
fn outcome_of_sending_without_waiting() {
    assert_eq!(sync_send_result(Ok(())), Ok(()));
    assert_eq!(
        sync_send_result(Err(TrySendError::Full(vec![1]))),
        Err(NotificationError::ChannelClogged)
    );
    assert_eq!(
        sync_send_result(Err(TrySendError::Closed(vec![1]))),
        Err(NotificationError::ChannelClogged)
    );
}

#[test]
fn sink_sends_into_its_two_channels() {
    let (sync_tx, mut sync_rx) = channel(1);
    let (async_tx, mut async_rx) = channel(1);
    let mut sink = NotificationSink::new(peer(1), sync_tx, async_tx);
    assert_eq!(sink.send_sync_notification(vec![1]), Ok(()));
    assert_eq!(sink.send_sync_notification(vec![2]), Err(NotificationError::ChannelClogged));
    assert_eq!(sync_rx.try_recv().unwrap(), vec![1]);
    let send = sink.send_async_notification(vec![3]);
    assert_eq!(send.peer, peer(1));
    send.tx.try_send(send.notification).unwrap();
    assert_eq!(async_rx.try_recv().unwrap(), vec![3]);
}

#[test]
fn events_of_the_protocol_reach_the_handle_through_the_channel() {
    let (event_tx, event_rx) = channel::<InnerNotificationEvent>(8);
    let (command_tx, _command_rx) = channel::<NotificationCommand>(8);
    let mut handle = NotificationHandle::new(event_rx, command_tx);
    let mut engine = NotificationProtocol::new(
        ProtocolName::new("/notif/1"),
        vec![],
        NotificationEventHandle::new(event_tx),
        4,
        4,
    );
    let outcome =
        engine.on_input(NotificationInput::InboundSubstream { peer: peer(1), handshake: vec![6] });
    engine.events().sender().try_send(outcome.event.unwrap()).unwrap();
    let received = handle.event_receiver().try_recv().ok();
    assert!(matches!(
        handle.next_event(received),
        Some(NotificationEvent::ValidateSubstream { peer: p, handshake, .. })
            if p == peer(1) && handshake == vec![6]
    ));
}

#[test]
fn event_handle_makes_the_events() {
    let (tx, mut rx) = channel(8);
    let events = NotificationEventHandle::new(tx);
    let event =
        events.report_inbound_substream(ProtocolName::new("/notif/1"), peer(1), vec![1, 2]);
    events.sender().try_send(event).unwrap();
    assert!(matches!(
        rx.try_recv(),
        Ok(InnerNotificationEvent::ValidateSubstream { peer: p, handshake, .. })
            if p == peer(1) && handshake == vec![1, 2]
    ));
    assert!(matches!(
        events.report_notification_stream_closed(peer(2)),
        InnerNotificationEvent::NotificationStreamClosed { peer: p } if p == peer(2)
    ));
    assert!(matches!(
        events.report_notification_stream_open_failure(peer(3), NotificationError::Rejected),
        InnerNotificationEvent::NotificationStreamOpenFailure {
            peer: p,
            error: NotificationError::Rejected,
        } if p == peer(3)
    ));
    assert!(matches!(
        events.report_notification_received(peer(4), vec![8]),
        InnerNotificationEvent::NotificationReceived { peer: p, notification }
            if p == peer(4) && notification == vec![8]
    ));
    let (sync_tx, _sync_rx) = channel(1);
    let (async_tx, _async_rx) = channel(1);
    let sink = NotificationSink::new(peer(5), sync_tx, async_tx);
    assert!(matches!(
        events.report_notification_stream_opened(
            ProtocolName::new("/notif/1"),
            peer(5),
            vec![],
            sink
        ),
        InnerNotificationEvent::NotificationStreamOpened { peer: p, .. } if p == peer(5)
    ));
}

#[test]
fn chat_notification_stream_scenario() {
    // the handler of "/notif/1" is told of the connection to the peer
    let mut engine = protocol(4);
    let mut handle = handle();
    let (connection, mut requests) = service("/notif/1");
    engine.on_input(NotificationInput::ConnectionEstablished {
        peer: peer(0xa),
        service: connection,
    });
    // the application asks for a substream, which gets the identifier 0
    let command = handle.open_substream(peer(0xa)).unwrap();
    let outcome = engine.on_input(NotificationInput::Command(command));
    match outcome.action {
        Some(NotificationAction::OpenSubstream { request, tx, .. }) => {
            tx.try_send(request).unwrap()
        }
        _ => panic!("no substream was asked for"),
    }
    assert!(matches!(
        requests.try_recv(),
        Ok(ProtocolEvent::OpenSubstream { substream_id: 0, .. })
    ));
    // the transport reports the substream, and the handshakes are exchanged
    engine.on_input(NotificationInput::OutboundSubstream { peer: peer(0xa), substream_id: 0 });
    let outcome = engine
        .on_input(NotificationInput::HandshakeReceived { peer: peer(0xa), handshake: vec![1] });
    let mut sync_rx = match outcome.action {
        Some(NotificationAction::ServeSink { sync_rx, .. }) => sync_rx,
        _ => panic!("no sink to serve"),
    };
    // the application sees the opened stream and can send on it
    assert!(matches!(
        handle.next_event(outcome.event),
        Some(NotificationEvent::NotificationStreamOpened { peer: p, .. }) if p == peer(0xa)
    ));
    assert_eq!(handle.send_sync_notification(peer(0xa), vec![0xc0, 0xde]), Ok(()));
    assert_eq!(sync_rx.try_recv().unwrap(), vec![0xc0, 0xde]);
}
