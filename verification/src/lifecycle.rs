//! The lifecycle supervisor and the update poller, as one state
//! machine: from the session's phase and an observed event to the next
//! phase and the single action the surrounding process must perform.
//!
//! The process owns the timers, the signal handler and the transport;
//! after every tick, response, or signal it calls [`step`] and performs
//! the returned [`Action`]. All scheduling decisions — a poll failure
//! never halts the poller, teardown happens exactly once, nothing
//! touches the interface after teardown begins — are made here.

use vstd::prelude::*;

use crate::client::JoinResponse;
use crate::errors::DarkError;
use crate::invite::InviteCode;
use crate::wg::Keypair;
use crate::wg::Wg;
use crate::wg::WgCmd;
use crate::wg::is_up_plan;
use crate::wg::peer_stanza;
use crate::wg::peer_stanza_view;

verus! {

/// Seconds between two status polls.
pub const POLL_INTERVAL_SECS: u64 = 20;

/// The lifecycle of a session.
#[derive(Debug, Clone, Copy, PartialEq, Eq, Structural)]
pub enum Phase {
    /// Nothing has happened yet.
    Idle,
    /// The join request is on its way, or the interface is coming up.
    Joining,
    /// The interface is up; the poller and the signal handler run.
    Active,
    /// Teardown has begun; no further event touches the interface.
    Terminating,
    /// The session is over.
    Terminated,
}

/// One observed occurrence the supervisor reacts to.
#[derive(Debug, Clone)]
pub enum Event {
    /// The command invocation begins.
    Start,
    /// The join response was received and the bring-up succeeded.
    BringUpSucceeded,
    /// A fatal error struck before the interface was up.
    BringUpFailed(DarkError),
    /// One poll tick returned a peer blob.
    PollSucceeded(String),
    /// One poll tick failed; the poller stays scheduled.
    PollFailed(DarkError),
    /// A termination signal was delivered.
    Signal,
    /// The teardown's destroy command finished; `true` on exit code 0.
    DestroyDone(bool),
}

/// What the surrounding process must do after a step.
#[derive(Debug, Clone)]
pub enum Action {
    /// At most log; the session continues unchanged.
    Nothing,
    /// Send the join request and bring the interface up.
    BeginJoin,
    /// Install the termination-signal handler and start the poller.
    StartBackground,
    /// Merge the returned peer blob into the interface configuration.
    MergePeers(String),
    /// Destroy the interface: the single teardown of the session.
    Destroy,
    /// Exit non-zero, without teardown: the interface was never up.
    ExitError(DarkError),
    /// Exit with status 0; teardown is complete, best-effort.
    ExitProcess,
}

/// A darknet session: the interface name, the coordination server's
/// endpoint, the keypair once one is generated, and the lifecycle
/// phase. It is created once per command and mutated only through
/// [`step`] and [`Session::with_keypair`].
pub struct Session {
    pub iface: String,
    pub host: String,
    pub port: String,
    pub keypair: Option<Keypair>,
    pub phase: Phase,
}

/// `s` with its phase replaced; every other field is kept.
pub open spec fn with_phase(s: Session, p: Phase) -> Session {
    Session { iface: s.iface, host: s.host, port: s.port, keypair: s.keypair, phase: p }
}

/// The transition table of the supervisor and the poller.
///
/// - `Idle → Joining` when the command starts; the join begins.
/// - `Joining → Active` when the bring-up succeeds; the poller and the
///   signal handler start.
/// - `Joining → Terminated` on any fatal join error: exit non-zero,
///   with no teardown, because the interface was never up.
/// - In `Active`, a successful poll merges its peer blob and a failed
///   poll does nothing; both leave the session `Active`, so the poller
///   stays scheduled whatever happened.
/// - `Active → Terminating` on a termination signal: the one teardown.
/// - `Terminating → Terminated` once the destroy command finished,
///   successfully or not: termination is best-effort.
/// - Every other combination changes nothing: in particular, no poll
///   result and no further signal is acted on once teardown has begun.
pub open spec fn step_spec(s: Session, e: Event) -> (Session, Action) {
    match (s.phase, e) {
        (Phase::Idle, Event::Start) => (with_phase(s, Phase::Joining), Action::BeginJoin),
        (Phase::Joining, Event::BringUpSucceeded) => (
            with_phase(s, Phase::Active),
            Action::StartBackground,
        ),
        (Phase::Joining, Event::BringUpFailed(err)) => (
            with_phase(s, Phase::Terminated),
            Action::ExitError(err),
        ),
        (Phase::Active, Event::PollSucceeded(peers)) => (s, Action::MergePeers(peers)),
        (Phase::Active, Event::PollFailed(_)) => (s, Action::Nothing),
        (Phase::Active, Event::Signal) => (with_phase(s, Phase::Terminating), Action::Destroy),
        (Phase::Terminating, Event::DestroyDone(_)) => (
            with_phase(s, Phase::Terminated),
            Action::ExitProcess,
        ),
        _ => (s, Action::Nothing),
    }
}

impl Session {
    /// A fresh session for an interface and a server endpoint: no
    /// keypair yet, phase `Idle`.
    pub fn new(iface: String, host: String, port: String) -> (r: Session)
        ensures
            r == (Session {
                iface: iface,
                host: host,
                port: port,
                keypair: None::<Keypair>,
                phase: Phase::Idle,
            }),
    {
        Session { iface, host, port, keypair: None, phase: Phase::Idle }
    }

    /// Record the keypair generated for this session. It is generated
    /// before any join request is sent.
    pub fn with_keypair(self, keypair: Keypair) -> (r: Session)
        ensures
            r == (Session { keypair: Some(keypair), ..self }),
    {
        Session { keypair: Some(keypair), ..self }
    }
}

/// Advance the session by one observed event, returning the next
/// session and the action the process must perform. Exactly the
/// transition table [`step_spec`].
pub fn step(s: Session, e: Event) -> (r: (Session, Action))
    ensures
        r == step_spec(s, e),
{
    match (s.phase, e) {
        (Phase::Idle, Event::Start) => {
            (Session { phase: Phase::Joining, ..s }, Action::BeginJoin)
        },
        (Phase::Joining, Event::BringUpSucceeded) => {
            (Session { phase: Phase::Active, ..s }, Action::StartBackground)
        },
        (Phase::Joining, Event::BringUpFailed(err)) => {
            (Session { phase: Phase::Terminated, ..s }, Action::ExitError(err))
        },
        (Phase::Active, Event::PollSucceeded(peers)) => (s, Action::MergePeers(peers)),
        (Phase::Active, Event::PollFailed(_)) => (s, Action::Nothing),
        (Phase::Active, Event::Signal) => {
            (Session { phase: Phase::Terminating, ..s }, Action::Destroy)
        },
        (Phase::Terminating, Event::DestroyDone(_)) => {
            (Session { phase: Phase::Terminated, ..s }, Action::ExitProcess)
        },
        (_, _) => (s, Action::Nothing),
    }
}

/// Gate of the `start` command: a darknet can only be reactivated if
/// its persisted configuration (at the path `config_path` gives) is
/// present; otherwise the command fails with `MissingConfig`.
pub fn check_start_config(config_present: bool) -> (r: Result<(), DarkError>)
    ensures
        (config_present <==> r is Ok),
        !config_present ==> r == Err::<(), DarkError>(DarkError::MissingConfig),
{
    if config_present {
        Ok(())
    } else {
        Err(DarkError::MissingConfig)
    }
}

/// All interface-controller commands of a successful join, in order:
/// the six bring-up steps for the address the server assigned — so the
/// interface exists, has its MTU, address and private key, and is up —
/// followed by exactly one additive merge that adds the coordination
/// server as a peer, with its public key from the join response and
/// its endpoint from the invite.
pub fn join_bringup_cmds(
    wg: &Wg,
    keypair: &Keypair,
    invite: &InviteCode,
    resp: &JoinResponse,
) -> (cmds: Vec<WgCmd>)
    ensures
        cmds@.len() == 7,
        is_up_plan(wg.iface@, keypair.privkey@, resp.address@, cmds@.subrange(0, 6)),
        (cmds@[6] matches WgCmd::MergeConfig { iface, config } && iface@ == wg.iface@ && config@
            == peer_stanza_view(resp.pubkey@, invite.host@, invite.port@)),
{
    let mut cmds = wg.up(keypair.privkey.as_str(), resp.address.as_str());
    let ghost up_plan = cmds@;
    let stanza = peer_stanza(resp.pubkey.as_str(), invite.host.as_str(), invite.port.as_str());
    cmds.push(wg.add_config(stanza.as_str()));
    proof {
        assert(cmds@.subrange(0, 6) =~= up_plan);
    }
    cmds
}

/// The session and the actions after a whole sequence of events,
/// first event first.
pub open spec fn run_events(s: Session, evs: Seq<Event>) -> (Session, Seq<Action>)
    decreases evs.len(),
{
    if evs.len() == 0 {
        (s, Seq::<Action>::empty())
    } else {
        let first = step_spec(s, evs[0]);
        let rest = run_events(first.0, evs.drop_first());
        (rest.0, seq![first.1] + rest.1)
    }
}

/// An event the poller produces.
pub open spec fn is_poll_event(e: Event) -> bool {
    e is PollSucceeded || e is PollFailed
}

/// The action an `Active` session takes on a poll result: merge the
/// blob of a successful poll, nothing on a failed one.
pub open spec fn poll_action(e: Event) -> Action {
    match e {
        Event::PollSucceeded(peers) => Action::MergePeers(peers),
        _ => Action::Nothing,
    }
}

/// A poll failure never halts the poller: any sequence of poll results
/// leaves an `Active` session exactly as it was — so the poller is
/// still scheduled afterwards — and each successful poll, and only
/// those, merges its peer blob.
pub proof fn lemma_poll_failures_never_halt(s: Session, evs: Seq<Event>)
    requires
        (s.phase is Active),
        forall|k: int| 0 <= k < evs.len() ==> is_poll_event(#[trigger] evs[k]),
    ensures
        run_events(s, evs).0 == s,
        run_events(s, evs).1.len() == evs.len(),
        forall|k: int| 0 <= k < evs.len() ==> #[trigger] run_events(s, evs).1[k] == poll_action(
            evs[k],
        ),
    decreases evs.len(),
{
    if evs.len() != 0 {
        let first = step_spec(s, evs[0]);
        assert(is_poll_event(evs[0]));
        assert(first.0 == s);
        assert(first.1 == poll_action(evs[0]));
        assert forall|k: int| 0 <= k < evs.drop_first().len() implies is_poll_event(
            #[trigger] evs.drop_first()[k],
        ) by {
            assert(evs.drop_first()[k] == evs[k + 1]);
        }
        lemma_poll_failures_never_halt(s, evs.drop_first());
        assert forall|k: int| 0 <= k < evs.len() implies #[trigger] run_events(s, evs).1[k]
            == poll_action(evs[k]) by {
            if k > 0 {
                assert(run_events(s, evs).1[k] == run_events(s, evs.drop_first()).1[k - 1]);
                assert(evs.drop_first()[k - 1] == evs[k]);
            }
        }
    }
}

/// Position of a phase along the one-way lifecycle
/// `Idle → Joining → Active → Terminating → Terminated`.
pub open spec fn phase_rank(p: Phase) -> nat {
    match p {
        Phase::Idle => 0,
        Phase::Joining => 1,
        Phase::Active => 2,
        Phase::Terminating => 3,
        Phase::Terminated => 4,
    }
}

/// The lifecycle only moves forward; and a session that is already
/// past `Idle` never begins a join again, one past `Joining` never
/// starts the background tasks again.
pub proof fn lemma_phases_move_forward(s: Session, evs: Seq<Event>)
    ensures
        phase_rank(run_events(s, evs).0.phase) >= phase_rank(s.phase),
        phase_rank(s.phase) >= 1 ==> forall|k: int|
            0 <= k < run_events(s, evs).1.len() ==> !((#[trigger] run_events(s, evs).1[k])
                is BeginJoin),
        phase_rank(s.phase) >= 2 ==> forall|k: int|
            0 <= k < run_events(s, evs).1.len() ==> !((#[trigger] run_events(s, evs).1[k])
                is StartBackground),
    decreases evs.len(),
{
    if evs.len() != 0 {
        let first = step_spec(s, evs[0]);
        lemma_phases_move_forward(first.0, evs.drop_first());
        let rest = run_events(first.0, evs.drop_first());
        let acts = run_events(s, evs).1;
        assert forall|k: int| 1 <= k < acts.len() implies acts[k] == rest.1[k - 1] by {}
    }
}

/// The interface is brought up at most once per session: over any
/// event sequence, the join begins at most once and the background
/// tasks — the poller and the signal handler — start at most once.
pub proof fn lemma_bringup_at_most_once(s: Session, evs: Seq<Event>)
    ensures
        forall|i: int, j: int|
            0 <= i < j < run_events(s, evs).1.len() && (#[trigger] run_events(s, evs).1[i])
                is BeginJoin ==> !((#[trigger] run_events(s, evs).1[j]) is BeginJoin),
        forall|i: int, j: int|
            0 <= i < j < run_events(s, evs).1.len() && (#[trigger] run_events(s, evs).1[i])
                is StartBackground ==> !((#[trigger] run_events(s, evs).1[j]) is StartBackground),
    decreases evs.len(),
{
    if evs.len() != 0 {
        let first = step_spec(s, evs[0]);
        let rest = run_events(first.0, evs.drop_first());
        let acts = run_events(s, evs).1;
        assert(acts[0] == first.1);
        lemma_bringup_at_most_once(first.0, evs.drop_first());
        lemma_phases_move_forward(first.0, evs.drop_first());
        assert forall|i: int, j: int|
            0 <= i < j < acts.len() && (#[trigger] acts[i]) is BeginJoin implies !((
        #[trigger] acts[j]) is BeginJoin) by {
            assert(acts[j] == rest.1[j - 1]);
            if i == 0 {
                assert(phase_rank(first.0.phase) >= 1);
            } else {
                assert(acts[i] == rest.1[i - 1]);
            }
        }
        assert forall|i: int, j: int|
            0 <= i < j < acts.len() && (#[trigger] acts[i]) is StartBackground implies !((
        #[trigger] acts[j]) is StartBackground) by {
            assert(acts[j] == rest.1[j - 1]);
            if i == 0 {
                assert(phase_rank(first.0.phase) >= 2);
            } else {
                assert(acts[i] == rest.1[i - 1]);
            }
        }
    }
}

/// Teardown has begun (or finished): from here no event mutates or
/// destroys the interface again.
pub open spec fn teardown_started(p: Phase) -> bool {
    p is Terminating || p is Terminated
}

/// No action of `acts` touches the interface: none merges peers and
/// none destroys.
pub open spec fn interface_untouched(acts: Seq<Action>) -> bool {
    forall|k: int| 0 <= k < acts.len() ==> !((#[trigger] acts[k]) is Destroy) && !(acts[k]
        is MergePeers)
}

/// How many actions of `acts` destroy the interface.
pub open spec fn destroy_count(acts: Seq<Action>) -> nat
    decreases acts.len(),
{
    if acts.len() == 0 {
        0
    } else {
        destroy_count(acts.drop_first()) + (if acts[0] is Destroy {
            1nat
        } else {
            0nat
        })
    }
}

/// Once teardown has begun, it has begun for good, and no later event
/// leads to a poll-triggered merge or to another destroy.
pub proof fn lemma_nothing_after_teardown(s: Session, evs: Seq<Event>)
    requires
        teardown_started(s.phase),
    ensures
        teardown_started(run_events(s, evs).0.phase),
        interface_untouched(run_events(s, evs).1),
    decreases evs.len(),
{
    if evs.len() != 0 {
        let first = step_spec(s, evs[0]);
        assert(teardown_started(first.0.phase));
        lemma_nothing_after_teardown(first.0, evs.drop_first());
        let acts = run_events(s, evs).1;
        assert forall|k: int| 0 <= k < acts.len() implies !((#[trigger] acts[k]) is Destroy) && !(
        acts[k] is MergePeers) by {
            if k > 0 {
                assert(acts[k] == run_events(first.0, evs.drop_first()).1[k - 1]);
            }
        }
    }
}

proof fn lemma_untouched_destroy_count(acts: Seq<Action>)
    requires
        interface_untouched(acts),
    ensures
        destroy_count(acts) == 0,
    decreases acts.len(),
{
    if acts.len() != 0 {
        assert forall|k: int| 0 <= k < acts.drop_first().len() implies !((
        #[trigger] acts.drop_first()[k]) is Destroy) && !(acts.drop_first()[k] is MergePeers) by {
            assert(acts.drop_first()[k] == acts[k + 1]);
        }
        lemma_untouched_destroy_count(acts.drop_first());
    }
}

/// Exactly one teardown per session: whatever events arrive and in
/// whatever order, at most one `Destroy` action is ever issued — none
/// at all once teardown has begun — and after the `Destroy` no
/// poll-triggered merge and no second destroy follows.
pub proof fn lemma_single_teardown(s: Session, evs: Seq<Event>)
    ensures
        destroy_count(run_events(s, evs).1) <= 1,
        teardown_started(s.phase) ==> destroy_count(run_events(s, evs).1) == 0,
        forall|i: int, j: int|
            0 <= i < j < run_events(s, evs).1.len() && (#[trigger] run_events(s, evs).1[i])
                is Destroy ==> !((#[trigger] run_events(s, evs).1[j]) is MergePeers) && !(
            run_events(s, evs).1[j] is Destroy),
    decreases evs.len(),
{
    if teardown_started(s.phase) {
        lemma_nothing_after_teardown(s, evs);
        lemma_untouched_destroy_count(run_events(s, evs).1);
    } else if evs.len() != 0 {
        let first = step_spec(s, evs[0]);
        let rest = run_events(first.0, evs.drop_first());
        let acts = run_events(s, evs).1;
        assert(acts.drop_first() =~= rest.1);
        assert(acts[0] == first.1);
        lemma_single_teardown(first.0, evs.drop_first());
        if first.1 is Destroy {
            assert(teardown_started(first.0.phase));
            lemma_nothing_after_teardown(first.0, evs.drop_first());
            lemma_untouched_destroy_count(rest.1);
        }
        assert forall|i: int, j: int|
            0 <= i < j < acts.len() && (#[trigger] acts[i]) is Destroy implies !((
        #[trigger] acts[j]) is MergePeers) && !(acts[j] is Destroy) by {
            assert(acts[j] == rest.1[j - 1]);
            if i == 0 {
                assert(interface_untouched(rest.1));
                assert(!(rest.1[j - 1] is MergePeers) && !(rest.1[j - 1] is Destroy));
            } else {
                assert(acts[i] == rest.1[i - 1]);
            }
        }
    }
}

} // verus!
