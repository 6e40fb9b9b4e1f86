//! The input worker as a state machine.
//!
//! The worker owns the platform's MIDI input: at any time either the free
//! device or one connection to a port, never both. It never touches the
//! platform itself. Its driver asks it what to do next
//! ([`MidiInputTask::action`]), does that, and reports what came of it
//! ([`MidiInputTask::step`]); the worker answers with the replies that go to
//! the application. What comes in on an open connection does not pass
//! through the worker: the platform hands it to [`on_midi`], whose reply goes
//! to the application directly.
//!
//! Every decision of the protocol is taken here: when a connection must be
//! closed before the ports can be listed, how often a listing is tried, which
//! port is connected again after a refresh, and what the application is told.

use crate::errors::ConnectErrorKind;
use crate::input::{
    connected_after, lemma_connected_after_concat, midi_in, Message, MidiData, MidiInputError,
    MidiInputSettings, Reply,
};
use crate::message::MidiMessage;
use crate::ports::MidiInputPort;
use vstd::prelude::*;

verus! {

/// How many times in a row the worker asks for the port list before it
/// reports that the ports cannot be listed.
pub const MAX_REFRESH_ATTEMPTS: u8 = 10;

/// What the worker holds of the platform.
#[derive(Clone, Debug, PartialEq, Eq)]
pub enum WorkerState {
    /// The device, bound to no port.
    Idle,
    /// A connection to this port. The device went into it and comes back
    /// when the connection is closed.
    Connected(MidiInputPort),
}

/// What a connection is being closed for.
#[derive(Clone, Debug, PartialEq, Eq)]
pub enum After {
    /// To stay disconnected.
    Disconnect,
    /// To connect to this other port.
    Connect(MidiInputPort),
    /// To list the ports, and then to connect to the same port again.
    Refresh,
}

/// What a connection attempt was started for.
#[derive(Clone, Copy, Debug, PartialEq, Eq)]
pub enum ConnectMode {
    /// The application asked for it, and nothing was connected.
    Fresh,
    /// The application asked for it, and another port was connected.
    Switch,
    /// The worker restores the connection that it closed to list the ports.
    Resume,
}

/// Where the worker stands.
#[derive(Clone, Debug, PartialEq, Eq)]
pub enum Stage {
    /// Disconnected, waiting for a command.
    Idle,
    /// Connected to `port`, waiting for a command.
    Connected { port: MidiInputPort },
    /// Connected to `port`, waiting for the connection to be closed.
    Closing { port: MidiInputPort, then: After },
    /// Disconnected, waiting for the outcome of connecting to `port`.
    Connecting { port: MidiInputPort, mode: ConnectMode },
    /// Disconnected, waiting for the port list. `failures` attempts have
    /// failed so far; `resume` is the port to connect to afterwards.
    Listing { failures: u8, resume: Option<MidiInputPort> },
}

/// What the worker asks its driver to do.
#[derive(Clone, Debug, PartialEq, Eq)]
pub enum Action {
    /// Wait for the next command of the application.
    AwaitCommand,
    /// Close the connection; the platform hands the device back.
    Close,
    /// Bind the device to this port.
    Connect(MidiInputPort),
    /// Ask the device once for the ports and their names.
    Enumerate,
}

/// What the driver reports back.
#[derive(Debug, PartialEq, Eq)]
pub enum Event {
    /// The application sent this command.
    Command(Message),
    /// The connection is closed.
    Closed,
    /// The connection attempt ended so.
    ConnectFinished(Result<(), ConnectErrorKind>),
    /// One attempt to list the ports ended: with the ports and their names,
    /// or with nothing because a name could not be had.
    Enumerated(Option<Vec<(String, MidiInputPort)>>),
}

impl Stage {
    /// What the worker holds of the platform at this stage.
    pub open spec fn worker_state(self) -> WorkerState {
        match self {
            Stage::Connected { port } => WorkerState::Connected(port),
            Stage::Closing { port, .. } => WorkerState::Connected(port),
            Stage::Idle => WorkerState::Idle,
            Stage::Connecting { .. } => WorkerState::Idle,
            Stage::Listing { .. } => WorkerState::Idle,
        }
    }

    /// What the driver has to do at this stage.
    pub open spec fn pending(self) -> Action {
        match self {
            Stage::Idle => Action::AwaitCommand,
            Stage::Connected { .. } => Action::AwaitCommand,
            Stage::Closing { .. } => Action::Close,
            Stage::Connecting { port, .. } => Action::Connect(port),
            Stage::Listing { .. } => Action::Enumerate,
        }
    }
}

/// Whether `event` reports the outcome of `action`.
pub open spec fn answers(action: Action, event: Event) -> bool {
    match action {
        Action::AwaitCommand => event is Command,
        Action::Close => event is Closed,
        Action::Connect(_) => event is ConnectFinished,
        Action::Enumerate => event is Enumerated,
    }
}

/// The stage that follows a listing: the connection that was closed for it
/// is restored, if there was one.
pub open spec fn after_listing(resume: Option<MidiInputPort>) -> Stage {
    match resume {
        Some(port) => Stage::Connecting { port, mode: ConnectMode::Resume },
        None => Stage::Idle,
    }
}

/// A command arrives while the worker waits for one.
pub open spec fn on_command(state: WorkerState, msg: Message) -> (Stage, Seq<Reply>) {
    match state {
        WorkerState::Idle => match msg {
            Message::RefreshPorts => (Stage::Listing { failures: 0, resume: None }, seq![]),
            Message::ConnectToPort(target) => (
                Stage::Connecting { port: target, mode: ConnectMode::Fresh },
                seq![],
            ),
            Message::DisconnectFromPort => (Stage::Idle, seq![]),
        },
        WorkerState::Connected(port) => match msg {
            Message::RefreshPorts => (Stage::Closing { port, then: After::Refresh }, seq![]),
            Message::ConnectToPort(target) => (
                Stage::Closing { port, then: After::Connect(target) },
                seq![],
            ),
            Message::DisconnectFromPort => (
                Stage::Closing { port, then: After::Disconnect },
                seq![],
            ),
        },
    }
}

/// The connection to `port` has been closed for `then`.
pub open spec fn on_closed(port: MidiInputPort, then: After) -> (Stage, Seq<Reply>) {
    match then {
        After::Disconnect => (Stage::Idle, seq![Reply::Disconnected]),
        After::Connect(target) => (
            Stage::Connecting { port: target, mode: ConnectMode::Switch },
            seq![],
        ),
        After::Refresh => (Stage::Listing { failures: 0, resume: Some(port) }, seq![]),
    }
}

/// The attempt to connect to `port` has ended with `outcome`.
///
/// Success is announced unless the worker only restores a connection, which
/// the application never saw closed. Failure is always reported; where a
/// connection existed before the attempt, its loss is reported too.
pub open spec fn on_connect_finished(
    port: MidiInputPort,
    mode: ConnectMode,
    outcome: Result<(), ConnectErrorKind>,
) -> (Stage, Seq<Reply>) {
    match outcome {
        Ok(_) => (
            Stage::Connected { port },
            match mode {
                ConnectMode::Resume => seq![],
                _ => seq![Reply::Connected],
            },
        ),
        Err(kind) => (
            Stage::Idle,
            match mode {
                ConnectMode::Fresh => seq![Reply::Error(MidiInputError::ConnectionError(kind))],
                _ => seq![
                    Reply::Error(MidiInputError::ConnectionError(kind)),
                    Reply::Disconnected,
                ],
            },
        ),
    }
}

/// One attempt to list the ports has ended, after `failures` failed ones.
///
/// A listing is passed on. A failure is tried again, until
/// [`MAX_REFRESH_ATTEMPTS`] attempts have failed in a row; then the failure
/// is reported. Either way the worker goes on as [`after_listing`] says.
pub open spec fn on_enumerated(
    failures: u8,
    resume: Option<MidiInputPort>,
    listing: Option<Vec<(String, MidiInputPort)>>,
) -> (Stage, Seq<Reply>) {
    match listing {
        Some(ports) => (after_listing(resume), seq![Reply::AvailablePorts(ports)]),
        None => if failures + 1 < MAX_REFRESH_ATTEMPTS {
            (Stage::Listing { failures: (failures + 1) as u8, resume }, seq![])
        } else {
            (after_listing(resume), seq![Reply::Error(MidiInputError::PortRefreshError)])
        },
    }
}

/// The stage that follows `stage` on `event`, and the replies that the
/// worker sends on the way. `None` where `event` does not report the outcome
/// of what the worker asked for at `stage`.
pub open spec fn transition(stage: Stage, event: Event) -> Option<(Stage, Seq<Reply>)> {
    match (stage, event) {
        (Stage::Idle, Event::Command(msg)) => Some(on_command(WorkerState::Idle, msg)),
        (Stage::Connected { port }, Event::Command(msg)) => Some(
            on_command(WorkerState::Connected(port), msg),
        ),
        (Stage::Closing { port, then }, Event::Closed) => Some(on_closed(port, then)),
        (Stage::Connecting { port, mode }, Event::ConnectFinished(outcome)) => Some(
            on_connect_finished(port, mode, outcome),
        ),
        (Stage::Listing { failures, resume }, Event::Enumerated(listing)) => Some(
            on_enumerated(failures, resume, listing),
        ),
        _ => None,
    }
}

/// The input worker: its settings and the stage at which it stands.
#[derive(Debug)]
pub struct MidiInputTask {
    settings: MidiInputSettings,
    stage: Stage,
}

impl View for MidiInputTask {
    type V = Stage;

    closed spec fn view(&self) -> Stage {
        self.stage
    }
}

/// Nothing to tell the application.
fn no_reply() -> (replies: Vec<Reply>)
    ensures
        replies@ == Seq::<Reply>::empty(),
{
    Vec::new()
}

/// One reply to the application.
fn one_reply(reply: Reply) -> (replies: Vec<Reply>)
    ensures
        replies@ == seq![reply],
{
    let mut replies: Vec<Reply> = Vec::new();
    replies.push(reply);
    replies
}

/// Two replies to the application, in this order.
fn two_replies(first: Reply, second: Reply) -> (replies: Vec<Reply>)
    ensures
        replies@ == seq![first, second],
{
    let mut replies: Vec<Reply> = Vec::new();
    replies.push(first);
    replies.push(second);
    replies
}

/// Where the worker goes after a listing.
fn resume_or_idle(resume: Option<MidiInputPort>) -> (stage: Stage)
    ensures
        stage == after_listing(resume),
{
    match resume {
        Some(port) => Stage::Connecting { port, mode: ConnectMode::Resume },
        None => Stage::Idle,
    }
}

/// The application asks to connect to `port`. A connection that is open
/// has to be closed first.
fn handle_connect_to_port(state: WorkerState, port: MidiInputPort) -> (next: (Stage, Vec<Reply>))
    ensures
        (next.0, next.1@) == on_command(state, Message::ConnectToPort(port)),
{
    match state {
        WorkerState::Idle => (Stage::Connecting { port, mode: ConnectMode::Fresh }, no_reply()),
        WorkerState::Connected(current) => (
            Stage::Closing { port: current, then: After::Connect(port) },
            no_reply(),
        ),
    }
}

/// The application asks to disconnect. Without a connection there is
/// nothing to do and nothing to say.
fn handle_disconnect_from_port(state: WorkerState) -> (next: (Stage, Vec<Reply>))
    ensures
        (next.0, next.1@) == on_command(state, Message::DisconnectFromPort),
{
    match state {
        WorkerState::Idle => (Stage::Idle, no_reply()),
        WorkerState::Connected(current) => (
            Stage::Closing { port: current, then: After::Disconnect },
            no_reply(),
        ),
    }
}

/// The application asks for the ports. The platform lists them only while
/// nothing is connected, so a connection that is open has to be closed first.
fn handle_refresh_ports(state: WorkerState) -> (next: (Stage, Vec<Reply>))
    ensures
        (next.0, next.1@) == on_command(state, Message::RefreshPorts),
{
    match state {
        WorkerState::Idle => (Stage::Listing { failures: 0, resume: None }, no_reply()),
        WorkerState::Connected(current) => (
            Stage::Closing { port: current, then: After::Refresh },
            no_reply(),
        ),
    }
}

/// A command of the application arrives.
fn handle_message(state: WorkerState, msg: Message) -> (next: (Stage, Vec<Reply>))
    ensures
        (next.0, next.1@) == on_command(state, msg),
{
    match msg {
        Message::ConnectToPort(port) => handle_connect_to_port(state, port),
        Message::DisconnectFromPort => handle_disconnect_from_port(state),
        Message::RefreshPorts => handle_refresh_ports(state),
    }
}

/// The connection is closed; the worker goes on with what it was closed for.
fn handle_closed(port: MidiInputPort, then: After) -> (next: (Stage, Vec<Reply>))
    ensures
        (next.0, next.1@) == on_closed(port, then),
{
    match then {
        After::Disconnect => (Stage::Idle, one_reply(Reply::Disconnected)),
        After::Connect(target) => (
            Stage::Connecting { port: target, mode: ConnectMode::Switch },
            no_reply(),
        ),
        After::Refresh => (Stage::Listing { failures: 0, resume: Some(port) }, no_reply()),
    }
}

/// A connection attempt has ended.
fn handle_connect_finished(
    port: MidiInputPort,
    mode: ConnectMode,
    outcome: Result<(), ConnectErrorKind>,
) -> (next: (Stage, Vec<Reply>))
    ensures
        (next.0, next.1@) == on_connect_finished(port, mode, outcome),
{
    match outcome {
        Ok(_) => {
            let replies = match mode {
                ConnectMode::Resume => no_reply(),
                _ => one_reply(Reply::Connected),
            };
            (Stage::Connected { port }, replies)
        },
        Err(kind) => {
            let failed = Reply::Error(MidiInputError::ConnectionError(kind));
            let replies = match mode {
                ConnectMode::Fresh => one_reply(failed),
                _ => two_replies(failed, Reply::Disconnected),
            };
            (Stage::Idle, replies)
        },
    }
}

/// One attempt to list the ports has ended: with the listing, which is
/// passed on, or without, which is tried again while attempts are left.
fn get_available_ports(
    failures: u8,
    resume: Option<MidiInputPort>,
    listing: Option<Vec<(String, MidiInputPort)>>,
) -> (next: (Stage, Vec<Reply>))
    ensures
        (next.0, next.1@) == on_enumerated(failures, resume, listing),
{
    match listing {
        Some(ports) => (resume_or_idle(resume), one_reply(Reply::AvailablePorts(ports))),
        None => if failures < MAX_REFRESH_ATTEMPTS - 1 {
            (Stage::Listing { failures: failures + 1, resume }, no_reply())
        } else {
            (
                resume_or_idle(resume),
                one_reply(Reply::Error(MidiInputError::PortRefreshError)),
            )
        },
    }
}

/// One step of the worker: `stage` takes in `event`.
fn advance(stage: Stage, event: Event) -> (next: (Stage, Option<Vec<Reply>>))
    ensures
        transition(stage, event) is Some ==> next.1 is Some && (next.0, next.1.unwrap()@)
            == transition(stage, event).unwrap(),
        transition(stage, event) is None ==> next.1 is None && next.0 == stage,
{
    let (after, replies) = match (stage, event) {
        (Stage::Idle, Event::Command(msg)) => handle_message(WorkerState::Idle, msg),
        (Stage::Connected { port }, Event::Command(msg)) => handle_message(
            WorkerState::Connected(port),
            msg,
        ),
        (Stage::Closing { port, then }, Event::Closed) => handle_closed(port, then),
        (Stage::Connecting { port, mode }, Event::ConnectFinished(outcome)) => {
            handle_connect_finished(port, mode, outcome)
        },
        (Stage::Listing { failures, resume }, Event::Enumerated(listing)) => get_available_ports(
            failures,
            resume,
            listing,
        ),
        (stage, _) => {
            return (stage, None);
        },
    };
    (after, Some(replies))
}

impl MidiInputTask {
    /// The settings that the worker was made with.
    pub closed spec fn spec_settings(&self) -> MidiInputSettings {
        self.settings
    }

    /// A worker whose driver has just opened the device. It starts by
    /// listing the ports.
    pub fn new(settings: MidiInputSettings) -> (task: MidiInputTask)
        ensures
            task@ == (Stage::Listing { failures: 0, resume: None }),
            task.spec_settings() == settings,
    {
        MidiInputTask { settings, stage: Stage::Listing { failures: 0, resume: None } }
    }

    /// The settings that the worker was made with.
    pub fn settings(&self) -> (settings: &MidiInputSettings)
        ensures
            *settings == self.spec_settings(),
    {
        &self.settings
    }

    /// The stage at which the worker stands.
    pub fn stage(&self) -> (stage: &Stage)
        ensures
            *stage == self@,
    {
        &self.stage
    }

    /// Whether the worker holds a connection.
    pub fn is_connected(&self) -> (connected: bool)
        ensures
            connected == (self@.worker_state() is Connected),
    {
        match &self.stage {
            Stage::Connected { .. } => true,
            Stage::Closing { .. } => true,
            _ => false,
        }
    }

    /// What the driver has to do now.
    pub fn action(&self) -> (action: Action)
        ensures
            action == self@.pending(),
    {
        match &self.stage {
            Stage::Idle => Action::AwaitCommand,
            Stage::Connected { .. } => Action::AwaitCommand,
            Stage::Closing { .. } => Action::Close,
            Stage::Connecting { port, .. } => Action::Connect(port.clone()),
            Stage::Listing { .. } => Action::Enumerate,
        }
    }

    /// Takes in what the driver reports and moves to the next stage.
    ///
    /// Returns the replies to send to the application, in this order. Where
    /// `event` is no outcome of what [`MidiInputTask::action`] asked for,
    /// nothing changes and `None` is returned.
    pub fn step(&mut self, event: Event) -> (replies: Option<Vec<Reply>>)
        ensures
            transition(old(self)@, event) is Some ==> replies is Some && (
                final(self)@,
                replies.unwrap()@,
            ) == transition(old(self)@, event).unwrap(),
            transition(old(self)@, event) is None ==> replies is None && final(self)@ == old(
                self,
            )@,
            final(self).spec_settings() == old(self).spec_settings(),
    {
        let mut stage = Stage::Idle;
        core::mem::swap(&mut self.stage, &mut stage);
        let (after, replies) = advance(stage, event);
        self.stage = after;
        replies
    }
}

/// Where the worker stands after it has taken in `events` one by one from
/// `stage`, and all that it has sent to the application meanwhile. An event
/// that answers nothing the worker asked for is passed over.
pub open spec fn run(stage: Stage, events: Seq<Event>) -> (Stage, Seq<Reply>)
    decreases events.len(),
{
    if events.len() == 0 {
        (stage, Seq::empty())
    } else {
        let (reached, sent) = run(stage, events.drop_last());
        match transition(reached, events.last()) {
            Some((after, more)) => (after, sent + more),
            None => (reached, sent),
        }
    }
}

/// `attempts` attempts in a row to list the ports, each of which failed.
pub open spec fn failed_listings(attempts: nat) -> Seq<Event> {
    Seq::new(attempts, |i: int| Event::Enumerated(None))
}

/// What the platform's input is bound to once the driver has carried out
/// `action` on an input bound to `held` and has seen `event` come of it.
/// Closing frees the device; a connection attempt binds it or, failing,
/// hands it back free; nothing else touches it.
pub open spec fn platform_after(held: WorkerState, action: Action, event: Event) -> WorkerState {
    match (action, event) {
        (Action::Close, Event::Closed) => WorkerState::Idle,
        (Action::Connect(port), Event::ConnectFinished(Ok(_))) => WorkerState::Connected(port),
        (Action::Connect(_), Event::ConnectFinished(Err(_))) => WorkerState::Idle,
        _ => held,
    }
}

/// A run with one more event at its end.
proof fn lemma_run_push(stage: Stage, events: Seq<Event>, event: Event)
    ensures
        run(stage, events.push(event)) == (match transition(run(stage, events).0, event) {
            Some((after, more)) => (after, run(stage, events).1 + more),
            None => run(stage, events),
        }),
{
    assert(events.push(event).drop_last() == events);
}

/// A run of a single event is a step.
proof fn lemma_run_one(stage: Stage, event: Event)
    ensures
        run(stage, seq![event]) == (match transition(stage, event) {
            Some(next) => next,
            None => (stage, Seq::<Reply>::empty()),
        }),
{
    lemma_run_push(stage, Seq::empty(), event);
}

/// A run through two sequences of events is the run through the first,
/// followed by the run through the second.
proof fn lemma_run_concat(stage: Stage, first: Seq<Event>, second: Seq<Event>)
    ensures
        run(stage, first + second) == (
            run(run(stage, first).0, second).0,
            run(stage, first).1 + run(run(stage, first).0, second).1,
        ),
    decreases second.len(),
{
    if second.len() > 0 {
        let init = second.drop_last();
        lemma_run_concat(stage, first, init);
        assert(first + second == (first + init).push(second.last()));
        lemma_run_push(stage, first + init, second.last());
    }
}

/// Failed attempts to list the ports are counted and not reported while
/// attempts are left.
proof fn lemma_run_failed_listings(failures: u8, resume: Option<MidiInputPort>, attempts: nat)
    requires
        failures + attempts < MAX_REFRESH_ATTEMPTS,
    ensures
        run(Stage::Listing { failures, resume }, failed_listings(attempts)) == (
            Stage::Listing { failures: (failures + attempts) as u8, resume },
            Seq::<Reply>::empty(),
        ),
    decreases attempts,
{
    if attempts > 0 {
        let fewer = (attempts - 1) as nat;
        lemma_run_failed_listings(failures, resume, fewer);
        assert(failed_listings(attempts).drop_last() == failed_listings(fewer));
    }
}

/// The worker takes a step exactly on the events that report the outcome
/// of what it asked for.
pub proof fn lemma_steps_on_answers(stage: Stage, event: Event)
    ensures
        transition(stage, event) is Some <==> answers(stage.pending(), event),
{
}

/// The worker holds exactly one of the free device and a connection, and
/// what it holds is what the platform holds.
///
/// It asks to connect and to list only while it holds the free device, so
/// it never opens a second connection. It asks to close only while it holds
/// a connection. After each step it holds what the driver's action has left
/// the platform with, so no connection is ever forgotten.
pub proof fn lemma_one_handle(stage: Stage, event: Event)
    requires
        answers(stage.pending(), event),
    ensures
        stage.pending() is Connect || stage.pending() is Enumerate ==> stage.worker_state()
            is Idle,
        stage.pending() is Close ==> stage.worker_state() is Connected,
        transition(stage, event).unwrap().0.worker_state() == platform_after(
            stage.worker_state(),
            stage.pending(),
            event,
        ),
{
}

/// What the platform holds after a driver has served the worker through
/// `events` from `stage`, when the platform held `held` at the start: for
/// each event that answers what the worker had asked for, the driver has
/// carried that action out.
pub open spec fn platform_run(held: WorkerState, stage: Stage, events: Seq<Event>) -> WorkerState
    decreases events.len(),
{
    if events.len() == 0 {
        held
    } else {
        let before = platform_run(held, stage, events.drop_last());
        let reached = run(stage, events.drop_last()).0;
        if answers(reached.pending(), events.last()) {
            platform_after(before, reached.pending(), events.last())
        } else {
            before
        }
    }
}

/// Whatever the application asks for and however the platform answers, the
/// worker and the platform agree at every moment on what is held: the free
/// device or a connection to one port.
pub proof fn lemma_one_handle_always(stage: Stage, events: Seq<Event>)
    ensures
        platform_run(stage.worker_state(), stage, events) == run(stage, events).0.worker_state(),
    decreases events.len(),
{
    if events.len() > 0 {
        lemma_one_handle_always(stage, events.drop_last());
        let reached = run(stage, events.drop_last()).0;
        lemma_steps_on_answers(reached, events.last());
        if answers(reached.pending(), events.last()) {
            lemma_one_handle(reached, events.last());
        }
    }
}

/// The most outcomes that the driver still has to report at `stage`
/// before the worker waits for a command again.
pub open spec fn steps_left(stage: Stage) -> nat {
    match stage {
        Stage::Idle => 0,
        Stage::Connected { .. } => 0,
        Stage::Closing { then, .. } => match then {
            After::Disconnect => 1,
            After::Connect(_) => 2,
            After::Refresh => MAX_REFRESH_ATTEMPTS as nat + 2,
        },
        Stage::Connecting { .. } => 1,
        Stage::Listing { failures, resume } => {
            let attempts: nat = if failures < MAX_REFRESH_ATTEMPTS {
                (MAX_REFRESH_ATTEMPTS - failures) as nat
            } else {
                1
            };
            match resume {
                Some(_) => attempts + 1,
                None => attempts,
            }
        },
    }
}

/// Nothing is left to report exactly when the worker waits for a command,
/// and never more than [`MAX_REFRESH_ATTEMPTS`] and two outcomes.
pub proof fn lemma_steps_left_bounds(stage: Stage)
    ensures
        steps_left(stage) == 0 <==> stage.pending() is AwaitCommand,
        steps_left(stage) <= MAX_REFRESH_ATTEMPTS + 2,
{
}

/// The worker works every command off: while it does not wait for a
/// command, each outcome that the driver reports brings it closer to
/// waiting for one. No failure of the platform leaves it stuck.
pub proof fn lemma_commands_are_worked_off(stage: Stage, event: Event)
    requires
        !(stage.pending() is AwaitCommand),
        answers(stage.pending(), event),
    ensures
        steps_left(transition(stage, event).unwrap().0) < steps_left(stage),
{
}

/// The connection status that the application has while the worker stands
/// at `stage`, once it has drained what the worker has sent so far. A
/// connection that the worker closes for a while counts as connected until
/// the application is told otherwise.
pub open spec fn status_shown(stage: Stage) -> bool {
    match stage {
        Stage::Idle => false,
        Stage::Connected { .. } => true,
        Stage::Closing { .. } => true,
        Stage::Connecting { mode, .. } => !(mode is Fresh),
        Stage::Listing { resume, .. } => resume is Some,
    }
}

/// Each step changes the status that the application sees into the status
/// of the next stage.
proof fn lemma_status_follows_step(stage: Stage, event: Event)
    requires
        answers(stage.pending(), event),
    ensures
        connected_after(status_shown(stage), transition(stage, event).unwrap().1) == status_shown(
            transition(stage, event).unwrap().0,
        ),
{
    reveal_with_fuel(connected_after, 3);
}

/// The connection status that the application sees never strays from the
/// worker: after any run of the worker, an application that has drained all
/// replies has the status that belongs to the worker's stage. Whenever the
/// worker waits for a command, that status says whether the worker holds a
/// connection.
pub proof fn lemma_status_is_coherent(stage: Stage, events: Seq<Event>)
    ensures
        connected_after(status_shown(stage), run(stage, events).1) == status_shown(
            run(stage, events).0,
        ),
        run(stage, events).0.pending() is AwaitCommand ==> status_shown(run(stage, events).0) == (
            run(stage, events).0.worker_state() is Connected),
    decreases events.len(),
{
    if events.len() > 0 {
        let before = run(stage, events.drop_last());
        lemma_status_is_coherent(stage, events.drop_last());
        lemma_steps_on_answers(before.0, events.last());
        match transition(before.0, events.last()) {
            Some((after, more)) => {
                lemma_status_follows_step(before.0, events.last());
                lemma_connected_after_concat(status_shown(stage), before.1, more);
            },
            None => {},
        }
    }
}

/// To disconnect while disconnected changes nothing and sends nothing.
pub proof fn lemma_disconnect_when_idle()
    ensures
        transition(Stage::Idle, Event::Command(Message::DisconnectFromPort)) == Some(
            (Stage::Idle, Seq::<Reply>::empty()),
        ),
{
}

/// A listing that succeeds after `retries` failed attempts, with fewer
/// than [`MAX_REFRESH_ATTEMPTS`] of them, is passed on as it is, and the
/// failed attempts are not reported.
pub proof fn lemma_listing_retried(
    resume: Option<MidiInputPort>,
    retries: nat,
    ports: Vec<(String, MidiInputPort)>,
)
    requires
        retries < MAX_REFRESH_ATTEMPTS,
    ensures
        run(
            Stage::Listing { failures: 0, resume },
            failed_listings(retries).push(Event::Enumerated(Some(ports))),
        ) == (after_listing(resume), seq![Reply::AvailablePorts(ports)]),
{
    let start = Stage::Listing { failures: 0, resume };
    lemma_run_failed_listings(0, resume, retries);
    lemma_run_push(start, failed_listings(retries), Event::Enumerated(Some(ports)));
}

/// When [`MAX_REFRESH_ATTEMPTS`] attempts to list the ports have failed in
/// a row, the worker gives up and reports that once.
pub proof fn lemma_listing_given_up(resume: Option<MidiInputPort>)
    ensures
        run(
            Stage::Listing { failures: 0, resume },
            failed_listings(MAX_REFRESH_ATTEMPTS as nat),
        ) == (after_listing(resume), seq![Reply::Error(MidiInputError::PortRefreshError)]),
{
    let start = Stage::Listing { failures: 0, resume };
    let before = failed_listings((MAX_REFRESH_ATTEMPTS - 1) as nat);
    lemma_run_failed_listings(0, resume, (MAX_REFRESH_ATTEMPTS - 1) as nat);
    assert(failed_listings(MAX_REFRESH_ATTEMPTS as nat) == before.push(Event::Enumerated(None)));
    lemma_run_push(start, before, Event::Enumerated(None));
}

/// The events of a refresh while connected whose listing succeeds after
/// `retries` failed attempts and whose reconnection ends with `outcome`.
pub open spec fn refresh_events(
    retries: nat,
    ports: Vec<(String, MidiInputPort)>,
    outcome: Result<(), ConnectErrorKind>,
) -> Seq<Event> {
    seq![Event::Command(Message::RefreshPorts), Event::Closed] + failed_listings(retries) + seq![
        Event::Enumerated(Some(ports)),
        Event::ConnectFinished(outcome),
    ]
}

/// What a refresh while connected comes to, whatever the outcome of the
/// reconnection.
proof fn lemma_run_refresh(
    port: MidiInputPort,
    retries: nat,
    ports: Vec<(String, MidiInputPort)>,
    outcome: Result<(), ConnectErrorKind>,
)
    requires
        retries < MAX_REFRESH_ATTEMPTS,
    ensures
        run(Stage::Connected { port }, refresh_events(retries, ports, outcome)) == (
            on_connect_finished(port, ConnectMode::Resume, outcome).0,
            seq![Reply::AvailablePorts(ports)] + on_connect_finished(
                port,
                ConnectMode::Resume,
                outcome,
            ).1,
        ),
{
    let start = Stage::Connected { port };
    let head = seq![Event::Command(Message::RefreshPorts), Event::Closed];
    let listed = failed_listings(retries).push(Event::Enumerated(Some(ports)));
    let last = Event::ConnectFinished(outcome);

    lemma_run_one(start, Event::Command(Message::RefreshPorts));
    lemma_run_push(start, seq![Event::Command(Message::RefreshPorts)], Event::Closed);
    assert(head == seq![Event::Command(Message::RefreshPorts)].push(Event::Closed));

    lemma_listing_retried(Some(port), retries, ports);
    lemma_run_concat(start, head, listed);
    lemma_run_push(start, head + listed, last);
    assert(refresh_events(retries, ports, outcome) == (head + listed).push(last));
}

/// Refreshing the ports while connected does not show in the connection
/// status when the worker can connect again: the application gets the
/// listing and nothing else, and the worker is connected to the same port
/// as before.
pub proof fn lemma_refresh_keeps_connection(
    port: MidiInputPort,
    retries: nat,
    ports: Vec<(String, MidiInputPort)>,
)
    requires
        retries < MAX_REFRESH_ATTEMPTS,
    ensures
        run(Stage::Connected { port }, refresh_events(retries, ports, Ok(()))) == (
            Stage::Connected { port },
            seq![Reply::AvailablePorts(ports)],
        ),
{
    lemma_run_refresh(port, retries, ports, Ok(()));
}

/// When the worker cannot connect again after a refresh, the application
/// gets the listing, then the error, then the loss of the connection, and
/// the worker is left disconnected.
pub proof fn lemma_refresh_loses_connection(
    port: MidiInputPort,
    retries: nat,
    ports: Vec<(String, MidiInputPort)>,
    kind: ConnectErrorKind,
)
    requires
        retries < MAX_REFRESH_ATTEMPTS,
    ensures
        run(Stage::Connected { port }, refresh_events(retries, ports, Err(kind))) == (
            Stage::Idle,
            seq![
                Reply::AvailablePorts(ports),
                Reply::Error(MidiInputError::ConnectionError(kind)),
                Reply::Disconnected,
            ],
        ),
{
    lemma_run_refresh(port, retries, ports, Err(kind));
}

/// What the application is sent when `bytes` come in at `stamp`: the
/// message with its time where there are exactly three bytes, nothing
/// otherwise.
pub open spec fn incoming(stamp: u64, bytes: Seq<u8>) -> Option<Reply> {
    if bytes.len() == 3 {
        Some(Reply::Midi(MidiData { stamp, message: MidiMessage { msg: [bytes[0], bytes[1], bytes[2]] } }))
    } else {
        None
    }
}

/// What the platform's callback sends to the application when `bytes` come
/// in at `stamp`.
pub fn on_midi(stamp: u64, bytes: &[u8]) -> (reply: Option<Reply>)
    ensures
        reply == incoming(stamp, bytes@),
{
    if bytes.len() != 3 {
        return None;
    }
    let message = MidiMessage { msg: [bytes[0], bytes[1], bytes[2]] };
    Some(Reply::Midi(MidiData { stamp, message }))
}

/// What the callback has sent to the application when `packets` have come
/// in, each with its time and its bytes, in this order.
pub open spec fn arrivals(packets: Seq<(u64, Seq<u8>)>) -> Seq<Reply>
    decreases packets.len(),
{
    if packets.len() == 0 {
        Seq::empty()
    } else {
        let before = arrivals(packets.drop_last());
        match incoming(packets.last().0, packets.last().1) {
            Some(reply) => before.push(reply),
            None => before,
        }
    }
}

/// However many three-byte messages come in before the application drains,
/// the drain hands out every one of them, once, in the order of arrival,
/// with its time and its bytes.
pub proof fn lemma_flood_is_drained_whole(packets: Seq<(u64, Seq<u8>)>)
    requires
        forall|i: int| 0 <= i < packets.len() ==> (#[trigger] packets[i]).1.len() == 3,
    ensures
        midi_in(arrivals(packets)).len() == packets.len(),
        forall|i: int|
            0 <= i < packets.len() ==> (#[trigger] midi_in(arrivals(packets))[i]).stamp
                == packets[i].0 && midi_in(arrivals(packets))[i].message@ == packets[i].1,
    decreases packets.len(),
{
    if packets.len() > 0 {
        let earlier = packets.drop_last();
        lemma_flood_is_drained_whole(earlier);
        assert(arrivals(packets).drop_last() == arrivals(earlier));
    }
}

} // verus!
