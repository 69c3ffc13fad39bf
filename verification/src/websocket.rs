//! The selection watcher: a state machine that keeps a subscription to the
//! game client alive and reports what it learns.
//!
//! The machine never waits and never touches a socket. It is told what
//! happened by a [`Signal`], changes [`Phase`], and answers with the
//! [`Action`]s to perform next. Whoever drives it performs them and reports
//! back. There is no final phase: every failure leads into a countdown and a
//! new attempt.

use crate::text::str_eq;
use vstd::prelude::*;

verus! {

/// What the watcher reports to the application.
#[derive(Debug, Clone, Copy, PartialEq, Eq, Structural)]
pub enum Event {
    /// The client reports this champion as currently selected.
    Selected(u32),
    /// The subscription stands.
    Connected,
    /// A connection attempt failed or the connection was lost.
    Disconnected,
    /// A new attempt follows in so many seconds.
    Retrying(u32),
}

/// The payload of an incoming message, as far as the watcher reads it.
#[derive(Debug, Clone, Copy, PartialEq, Eq, Structural)]
pub enum Payload {
    /// A number; `None` where it is not an unsigned integer.
    Number(Option<u64>),
    /// Anything that is no number.
    Other,
}

/// Where the watcher stands.
#[derive(Debug, Clone, Copy, PartialEq, Eq, Structural)]
pub enum Phase {
    /// Not started.
    Idle,
    /// A connection attempt is under way.
    Connecting,
    /// Subscribed and listening.
    Connected,
    /// Counting down to the next attempt; the last announced number of
    /// seconds.
    Retrying(u32),
}

/// What the driver reports to the watcher.
#[derive(Debug, Clone, PartialEq, Eq)]
pub enum Signal {
    /// The watcher has been attached.
    Start,
    /// The connection stands and the subscription was sent.
    Subscribed,
    /// The attempt failed, or the connection dropped.
    Lost,
    /// A message arrived.
    Received { uri: String, payload: Payload },
    /// A second has passed.
    Tick,
}

/// A [`Signal`] as a mathematical value.
pub enum SignalModel {
    Start,
    Subscribed,
    Lost,
    Received { uri: Seq<char>, payload: Payload },
    Tick,
}

impl View for Signal {
    type V = SignalModel;

    open spec fn view(&self) -> SignalModel {
        match *self {
            Signal::Start => SignalModel::Start,
            Signal::Subscribed => SignalModel::Subscribed,
            Signal::Lost => SignalModel::Lost,
            Signal::Received { uri, payload } => SignalModel::Received { uri: uri@, payload },
            Signal::Tick => SignalModel::Tick,
        }
    }
}

/// What the driver is to do next.
#[derive(Debug, Clone, Copy, PartialEq, Eq, Structural)]
pub enum Action {
    /// Connect to the client and subscribe; answer with `Subscribed` or `Lost`.
    Connect,
    /// Wait for the next message; answer with `Received` or `Lost`.
    Listen,
    /// Hand the event to the application.
    Emit(Event),
    /// Wait one second; answer with `Tick`.
    Sleep,
}

/// What the watcher makes of one incoming message.
#[derive(Debug, Clone, Copy, PartialEq, Eq, Structural)]
pub enum Reading {
    /// Not about the current champion.
    Ignored,
    /// The current champion changed to this id.
    Selected(u32),
    /// About the current champion, but unreadable.
    Malformed,
}

/// The length of the countdown between attempts, in seconds.
pub open spec fn spec_delay() -> u32 {
    10
}

/// The address under which the client reports the current champion.
pub open spec fn spec_champion_uri() -> Seq<char> {
    "/lol-champ-select/v1/current-champion"@
}

/// What the watcher makes of a message. Only the current-champion address
/// counts. Its payload has to be an unsigned integer that fits a champion's
/// id, which is then taken as it is; anything else is unreadable.
pub open spec fn spec_read(uri: Seq<char>, payload: Payload) -> Reading {
    if uri != spec_champion_uri() {
        Reading::Ignored
    } else {
        match payload {
            Payload::Number(Some(id)) => if id <= u32::MAX {
                Reading::Selected(id as u32)
            } else {
                Reading::Malformed
            },
            Payload::Number(None) => Reading::Malformed,
            Payload::Other => Reading::Malformed,
        }
    }
}

/// What follows every failure: `Disconnected` at once, then the countdown
/// starts at its full length.
pub open spec fn spec_fail() -> (Phase, Seq<Action>) {
    (
        Phase::Retrying(spec_delay()),
        seq![
            Action::Emit(Event::Disconnected),
            Action::Emit(Event::Retrying(spec_delay())),
            Action::Sleep,
        ],
    )
}

/// One step of the watcher: the next phase and what to do, given the phase
/// and what happened. A signal that does not belong to the phase changes
/// nothing.
pub open spec fn spec_step(phase: Phase, signal: SignalModel) -> (Phase, Seq<Action>) {
    match (phase, signal) {
        (Phase::Idle, SignalModel::Start) => (Phase::Connecting, seq![Action::Connect]),
        (Phase::Connecting, SignalModel::Subscribed) => (
            Phase::Connected,
            seq![Action::Emit(Event::Connected), Action::Listen],
        ),
        (Phase::Connecting, SignalModel::Lost) => spec_fail(),
        (Phase::Connected, SignalModel::Lost) => spec_fail(),
        (Phase::Connected, SignalModel::Received { uri, payload }) => match spec_read(
            uri,
            payload,
        ) {
            Reading::Ignored => (Phase::Connected, seq![Action::Listen]),
            Reading::Selected(id) => (
                Phase::Connected,
                seq![Action::Emit(Event::Selected(id)), Action::Listen],
            ),
            Reading::Malformed => spec_fail(),
        },
        (Phase::Retrying(left), SignalModel::Tick) => if left > 1 {
            (
                Phase::Retrying((left - 1) as u32),
                seq![Action::Emit(Event::Retrying((left - 1) as u32)), Action::Sleep],
            )
        } else {
            (Phase::Connecting, seq![Action::Connect])
        },
        _ => (phase, seq![]),
    }
}

/// Many steps in a row: the phase reached and all actions in order.
pub open spec fn spec_run(phase: Phase, signals: Seq<SignalModel>) -> (Phase, Seq<Action>)
    decreases signals.len(),
{
    if signals.len() == 0 {
        (phase, seq![])
    } else {
        let (next, first) = spec_step(phase, signals[0]);
        let (last, rest) = spec_run(next, signals.drop_first());
        (last, first + rest)
    }
}

/// The announcements of a countdown from `from` seconds down to one, each
/// followed by a second of sleep.
pub open spec fn countdown(from: nat) -> Seq<Action>
    decreases from,
{
    if from == 0 {
        seq![]
    } else {
        seq![Action::Emit(Event::Retrying(from as u32)), Action::Sleep] + countdown(
            (from - 1) as nat,
        )
    }
}

/// So many seconds passing, one after the other.
pub open spec fn ticks(count: nat) -> Seq<SignalModel> {
    Seq::new(count, |i: int| SignalModel::Tick)
}

/// The address under which the client reports the current champion.
pub fn champion_uri() -> (uri: &'static str)
    ensures
        uri@ == spec_champion_uri(),
{
    "/lol-champ-select/v1/current-champion"
}

/// The request that subscribes to the client's event channel.
pub fn subscription() -> (request: &'static str)
    ensures
        request@ == "[5,\"OnJsonApiEvent\"]"@,
{
    "[5,\"OnJsonApiEvent\"]"
}

/// Reads one incoming message.
pub fn read(uri: &str, payload: Payload) -> (reading: Reading)
    ensures
        reading == spec_read(uri@, payload),
{
    if !str_eq(uri, champion_uri()) {
        return Reading::Ignored;
    }
    match payload {
        Payload::Number(Some(id)) => {
            if id <= u32::MAX as u64 {
                Reading::Selected(id as u32)
            } else {
                Reading::Malformed
            }
        },
        Payload::Number(None) => Reading::Malformed,
        Payload::Other => Reading::Malformed,
    }
}

/// The selection watcher.
#[derive(Debug, Clone, Copy, PartialEq, Eq, Structural)]
pub struct Watcher {
    phase: Phase,
}

impl View for Watcher {
    type V = Phase;

    closed spec fn view(&self) -> Phase {
        self.phase
    }
}

impl Watcher {
    /// A watcher that has not been started.
    pub fn new() -> (watcher: Watcher)
        ensures
            watcher@ == Phase::Idle,
    {
        Watcher { phase: Phase::Idle }
    }

    /// Where the watcher stands.
    pub fn phase(&self) -> (phase: Phase)
        ensures
            phase == self@,
    {
        self.phase
    }

    fn fail(&mut self) -> (actions: Vec<Action>)
        ensures
            (final(self)@, actions@) == spec_fail(),
    {
        self.phase = Phase::Retrying(10);
        let mut actions: Vec<Action> = Vec::new();
        actions.push(Action::Emit(Event::Disconnected));
        actions.push(Action::Emit(Event::Retrying(10)));
        actions.push(Action::Sleep);
        actions
    }

    /// Takes one step: moves to the next phase and says what to do.
    pub fn step(&mut self, signal: &Signal) -> (actions: Vec<Action>)
        ensures
            (final(self)@, actions@) == spec_step(old(self)@, signal@),
    {
        let mut actions: Vec<Action> = Vec::new();
        match (self.phase, signal) {
            (Phase::Idle, Signal::Start) => {
                self.phase = Phase::Connecting;
                actions.push(Action::Connect);
            },
            (Phase::Connecting, Signal::Subscribed) => {
                self.phase = Phase::Connected;
                actions.push(Action::Emit(Event::Connected));
                actions.push(Action::Listen);
            },
            (Phase::Connecting, Signal::Lost) => {
                return self.fail();
            },
            (Phase::Connected, Signal::Lost) => {
                return self.fail();
            },
            (Phase::Connected, Signal::Received { uri, payload }) => {
                match read(uri.as_str(), *payload) {
                    Reading::Ignored => {
                        actions.push(Action::Listen);
                    },
                    Reading::Selected(id) => {
                        actions.push(Action::Emit(Event::Selected(id)));
                        actions.push(Action::Listen);
                    },
                    Reading::Malformed => {
                        return self.fail();
                    },
                }
            },
            (Phase::Retrying(left), Signal::Tick) => {
                if left > 1 {
                    self.phase = Phase::Retrying(left - 1);
                    actions.push(Action::Emit(Event::Retrying(left - 1)));
                    actions.push(Action::Sleep);
                } else {
                    self.phase = Phase::Connecting;
                    actions.push(Action::Connect);
                }
            },
            _ => {},
        }
        actions
    }
}

/// A running countdown runs out: from an announced `left` seconds, after
/// `left` more seconds the remaining announcements `left - 1, .., 1` have
/// been made, each followed by a second of sleep, and a new connection
/// attempt begins.
pub proof fn lemma_countdown_runs_out(left: nat)
    requires
        1 <= left <= u32::MAX,
    ensures
        spec_run(Phase::Retrying(left as u32), ticks(left)) == (
            Phase::Connecting,
            countdown((left - 1) as nat) + seq![Action::Connect],
        ),
    decreases left,
{
    let signals = ticks(left);
    assert(signals[0] == SignalModel::Tick);
    assert(signals.drop_first() =~= ticks((left - 1) as nat));
    if left == 1 {
        let rest = spec_run(Phase::Connecting, ticks(0));
        assert(rest == (Phase::Connecting, Seq::<Action>::empty()));
        assert(seq![Action::Connect] + Seq::<Action>::empty() =~= countdown(0) + seq![
            Action::Connect,
        ]);
    } else {
        lemma_countdown_runs_out((left - 1) as nat);
        let head = seq![Action::Emit(Event::Retrying((left - 1) as u32)), Action::Sleep];
        assert(head + (countdown((left - 2) as nat) + seq![Action::Connect]) =~= countdown(
            (left - 1) as nat,
        ) + seq![Action::Connect]);
    }
}

/// The retry cycle. When a connection attempt fails or a standing
/// connection is lost, the watcher reports `Disconnected` at once, then
/// announces `Retrying` exactly ten times, counting from ten down to one with
/// a second of sleep after each, and then starts a new connection attempt.
pub proof fn lemma_retry_cycle(phase: Phase)
    requires
        phase is Connecting || phase is Connected,
    ensures
        spec_run(phase, seq![SignalModel::Lost] + ticks(10)) == (
            Phase::Connecting,
            seq![Action::Emit(Event::Disconnected)] + countdown(10) + seq![Action::Connect],
        ),
{
    let signals = seq![SignalModel::Lost] + ticks(10);
    assert(signals[0] == SignalModel::Lost);
    assert(signals.drop_first() =~= ticks(10));
    lemma_countdown_runs_out(10);
    let first = spec_fail().1;
    let rest = countdown(9) + seq![Action::Connect];
    assert(first + rest =~= seq![Action::Emit(Event::Disconnected)] + countdown(10) + seq![
        Action::Connect,
    ]);
}

/// Events keep their order within a connection. A selection is reported
/// only while the subscription stands, and the subscription comes to stand
/// only in a step that reports `Connected` first; whatever leads into the
/// countdown reports `Disconnected` before the first `Retrying`.
pub proof fn lemma_event_order(phase: Phase, signal: SignalModel)
    ensures
        ({
            let (next, actions) = spec_step(phase, signal);
            &&& (exists|i: int, id: u32|
                0 <= i < actions.len() && actions[i] == Action::Emit(Event::Selected(id)))
                ==> phase is Connected
            &&& next is Connected && !(phase is Connected) ==> actions.len() > 0 && actions[0]
                == Action::Emit(Event::Connected)
            &&& next is Retrying && !(phase is Retrying) ==> actions.len() > 1 && actions[0]
                == Action::Emit(Event::Disconnected) && actions[1] == Action::Emit(
                Event::Retrying(spec_delay()),
            )
        }),
{
}

} // verus!
