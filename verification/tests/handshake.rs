use voicelink::connection::udp::{
    authentication_request, connect, pick_local_port, reply_confirms, step, Action, Event,
    Failure, Phase, MAX_CONFIRMS, MAX_TRIES,
};
use voicelink::connection::Session;

#[test]
fn start_opens_a_socket() {
    assert_eq!(connect(), (Phase::Connecting { tries: 0 }, Action::OpenSocket));
}

#[test]
fn echoed_id_authenticates() {
    let (p, _) = connect();
    let (p, a) = step(p, Event::AuthSent);
    assert_eq!((p, a), (Phase::Waiting { tries: 0, confirms: 0 }, Action::Receive));
    let (p, a) = step(p, Event::Reply { confirmed: true });
    assert_eq!((p, a), (Phase::Authenticated, Action::StartSession));
}

#[test]
fn other_reply_is_answered_with_confirm() {
    let p = Phase::Waiting { tries: 1, confirms: 2 };
    let (p, a) = step(p, Event::Reply { confirmed: false });
    assert_eq!((p, a), (Phase::Confirming { tries: 1, confirms: 2 }, Action::SendConfirm));
    let (p, a) = step(p, Event::ConfirmSent);
    assert_eq!((p, a), (Phase::Waiting { tries: 1, confirms: 3 }, Action::PauseThenReceive));
}

#[test]
fn sixth_confirm_pauses_then_gives_up() {
    assert_eq!(
        step(Phase::Confirming { tries: 2, confirms: 5 }, Event::ConfirmSent),
        (
            Phase::Failed(Failure::CouldNotAuthenticate),
            Action::PauseThenAbort(Failure::CouldNotAuthenticate)
        )
    );
}

#[test]
fn gives_up_after_too_many_confirms() {
    let mut p = Phase::Waiting { tries: 0, confirms: 0 };
    let mut sent = 0;
    loop {
        let (q, a) = step(p, Event::Reply { confirmed: false });
        assert_eq!(a, Action::SendConfirm);
        let (q, a) = step(q, Event::ConfirmSent);
        sent += 1;
        p = q;
        if let Action::PauseThenAbort(f) = a {
            assert_eq!(f, Failure::CouldNotAuthenticate);
            break;
        }
    }
    assert_eq!(sent, MAX_CONFIRMS as u32 + 1);
    assert_eq!(p, Phase::Failed(Failure::CouldNotAuthenticate));
}

#[test]
fn failed_receive_retries_then_gives_up() {
    let (mut p, _) = connect();
    let mut attempts = 1;
    loop {
        let (q, _) = step(p, Event::AuthSent);
        let (q, a) = step(q, Event::NothingReceived);
        p = q;
        match a {
            Action::OpenSocket => attempts += 1,
            Action::Abort(f) => {
                assert_eq!(f, Failure::CouldNotConnect);
                break;
            }
            other => panic!("unexpected action {:?}", other),
        }
    }
    assert_eq!(attempts, MAX_TRIES as u32 + 1);
    assert_eq!(p, Phase::Failed(Failure::CouldNotConnect));
}

#[test]
fn socket_errors_abort() {
    assert_eq!(
        step(Phase::Connecting { tries: 3 }, Event::SocketError),
        (Phase::Failed(Failure::SocketError), Action::Abort(Failure::SocketError))
    );
    assert_eq!(
        step(Phase::Confirming { tries: 0, confirms: 0 }, Event::SocketError),
        (Phase::Failed(Failure::SocketError), Action::Abort(Failure::SocketError))
    );
}

#[test]
fn ended_handshake_ignores_events() {
    assert_eq!(step(Phase::Authenticated, Event::AuthSent), (Phase::Authenticated, Action::Ignore));
    let failed = Phase::Failed(Failure::SocketError);
    assert_eq!(step(failed, Event::Reply { confirmed: true }), (failed, Action::Ignore));
    let waiting = Phase::Waiting { tries: 0, confirms: 0 };
    assert_eq!(step(waiting, Event::ConfirmSent), (waiting, Action::Ignore));
}

#[test]
fn reply_confirms_compares_text() {
    assert!(reply_confirms(b"alice", "alice"));
    assert!(!reply_confirms(b"alic", "alice"));
    assert!(!reply_confirms(b"", "alice"));
    assert!(reply_confirms(b"", ""));
    // Invalid UTF-8 is read with replacement characters.
    assert!(reply_confirms(&[0xff], "\u{fffd}"));
    assert!(!reply_confirms(&[0xff], "x"));
}

#[test]
fn authentication_request_layout() {
    let session = Session::new();
    let id = session.conn_id();
    let packet = authentication_request(&session, "bob", &[1, 2, 3]);
    let mut expected = vec![b'c'];
    expected.extend_from_slice(&id);
    expected.extend_from_slice(b":bob:test:AQID");
    assert_eq!(packet, expected);
}

#[test]
fn local_port_in_range() {
    for _ in 0..100 {
        let p = pick_local_port();
        assert!((3000..4000).contains(&p));
    }
}

#[test]
fn every_run_ends_within_bound() {
    let events = [
        Event::AuthSent,
        Event::SocketError,
        Event::NothingReceived,
        Event::Reply { confirmed: false },
        Event::Reply { confirmed: true },
        Event::ConfirmSent,
    ];
    for seed in 0u64..200 {
        let mut state = seed.wrapping_mul(6364136223846793005).wrapping_add(1442695040888963407);
        let (mut p, _) = connect();
        let mut steps = 0;
        for _ in 0..10_000 {
            state = state.wrapping_mul(6364136223846793005).wrapping_add(1442695040888963407);
            // Avoid the events that end the handshake at once, except now and then.
            let pick = (state >> 33) as usize % events.len();
            let e = if (pick == 1 || pick == 4) && (state >> 20) % 50 != 0 { Event::AuthSent } else { events[pick] };
            let (q, a) = step(p, e);
            if a != Action::Ignore {
                steps += 1;
            }
            p = q;
            if matches!(p, Phase::Authenticated | Phase::Failed(_)) {
                break;
            }
            if a == Action::Ignore {
                // Feed the event the phase expects so the run keeps moving.
                let expected = match p {
                    Phase::Connecting { .. } => Event::AuthSent,
                    Phase::Waiting { .. } => Event::Reply { confirmed: false },
                    Phase::Confirming { .. } => Event::ConfirmSent,
                    _ => unreachable!(),
                };
                let (q, _) = step(p, expected);
                steps += 1;
                p = q;
            }
            if matches!(p, Phase::Authenticated | Phase::Failed(_)) {
                break;
            }
        }
        assert!(matches!(p, Phase::Authenticated | Phase::Failed(_)));
        assert!(steps <= 113, "{} steps", steps);
    }
}
