use wg_dark::errors::DarkError;
use wg_dark::lifecycle::Action;
use wg_dark::lifecycle::Event;
use wg_dark::lifecycle::Phase;
use wg_dark::lifecycle::Session;
use wg_dark::lifecycle::check_start_config;
use wg_dark::lifecycle::step;
use wg_dark::wg::Wg;

fn active_session() -> Session {
    let s = Session::new("wg0".to_string(), "10.0.0.1".to_string(), "51820".to_string());
    assert_eq!(s.phase, Phase::Idle);
    let s = s.with_keypair(Wg::generate_keypair("PRIV", "PUB"));
    let (s, a) = step(s, Event::Start);
    assert!(matches!(a, Action::BeginJoin));
    assert_eq!(s.phase, Phase::Joining);
    let (s, a) = step(s, Event::BringUpSucceeded);
    assert!(matches!(a, Action::StartBackground));
    assert_eq!(s.phase, Phase::Active);
    s
}

#[test]
fn failed_poll_ticks_never_halt_the_poller() {
    // Five poll ticks; ticks 2 and 4 fail with a network error.
    let ticks = vec![
        Event::PollSucceeded("[Peer]\nPublicKey = A\n".to_string()),
        Event::PollFailed(DarkError::NetworkError),
        Event::PollSucceeded("[Peer]\nPublicKey = B\n".to_string()),
        Event::PollFailed(DarkError::NetworkError),
        Event::PollSucceeded("[Peer]\nPublicKey = C\n".to_string()),
    ];
    let mut s = active_session();
    let mut merges: Vec<String> = Vec::new();
    for e in ticks {
        let (s2, a) = step(s, e);
        s = s2;
        match a {
            Action::MergePeers(blob) => merges.push(blob),
            Action::Nothing => {},
            _ => panic!("a poll result triggered a non-poll action"),
        }
    }
    // The merge happened exactly three times, and the poller is still
    // scheduled after the fifth tick: the session is still Active.
    assert_eq!(merges.len(), 3);
    assert!(merges[0].contains("A") && merges[1].contains("B") && merges[2].contains("C"));
    assert_eq!(s.phase, Phase::Active);
}

#[test]
fn a_signal_during_a_poll_tears_down_exactly_once() {
    let s = active_session();
    // The signal arrives while a poll is in flight.
    let (s, a) = step(s, Event::Signal);
    assert!(matches!(a, Action::Destroy));
    assert_eq!(s.phase, Phase::Terminating);
    // The in-flight poll completes after teardown began: no merge.
    let (s, a) = step(s, Event::PollSucceeded("[Peer]\nPublicKey = A\n".to_string()));
    assert!(matches!(a, Action::Nothing));
    assert_eq!(s.phase, Phase::Terminating);
    // A second signal does not destroy a second time.
    let (s, a) = step(s, Event::Signal);
    assert!(matches!(a, Action::Nothing));
    // The destroy finishing ends the process, even if it failed.
    let (s, a) = step(s, Event::DestroyDone(false));
    assert!(matches!(a, Action::ExitProcess));
    assert_eq!(s.phase, Phase::Terminated);
    // Nothing is acted on once the session is over.
    let (_, a) = step(s, Event::Signal);
    assert!(matches!(a, Action::Nothing));
}

#[test]
fn a_fatal_join_error_exits_without_teardown() {
    let s = Session::new("wg0".to_string(), "10.0.0.1".to_string(), "51820".to_string());
    let (s, _) = step(s, Event::Start);
    // The server answered the join request with a 403.
    let (s, a) = step(s, Event::BringUpFailed(DarkError::ServerError(403)));
    match a {
        Action::ExitError(e) => assert_eq!(e, DarkError::ServerError(403)),
        _ => panic!("a fatal join error must exit"),
    }
    // Straight to Terminated: no Destroy was ever issued, because the
    // interface was never brought up.
    assert_eq!(s.phase, Phase::Terminated);
    let (_, a) = step(s, Event::Signal);
    assert!(matches!(a, Action::Nothing));
}

#[test]
fn a_session_keeps_its_identity_through_steps() {
    let s = active_session();
    assert_eq!(s.iface, "wg0");
    assert_eq!(s.host, "10.0.0.1");
    assert_eq!(s.port, "51820");
    let kp = s.keypair.as_ref().unwrap();
    assert_eq!(kp.privkey, "PRIV");
    assert_eq!(kp.pubkey, "PUB");
}

#[test]
fn start_requires_the_persisted_config() {
    assert!(check_start_config(true).is_ok());
    assert_eq!(check_start_config(false).unwrap_err(), DarkError::MissingConfig);
}
