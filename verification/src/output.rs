//! MIDI output: the application's handle on the output worker.
//!
//! The application queues commands on a [`MidiOutput`] and, once per tick,
//! hands the replies that the worker has sent to [`reply`], which brings the
//! port snapshot and the connection status up to date. Moving commands to
//! the worker and replies back is the embedding's part.

use crate::errors::{ConnectErrorKind, SendError};
use crate::message::MidiMessage;
use crate::output::worker::{MidiOutputTask, Stage};
use crate::ports::MidiOutputPort;
use vstd::prelude::*;
use vstd::string::StringExecFns;

pub mod worker;

verus! {

/// Settings of the output worker.
#[derive(Clone, Debug)]
pub struct MidiOutputSettings {
    /// The name under which the worker shows itself to the platform.
    pub port_name: &'static str,
}

impl Default for MidiOutputSettings {
    fn default() -> (settings: MidiOutputSettings)
        ensures
            settings.port_name@ == "bevy_midi"@,
    {
        MidiOutputSettings { port_name: "bevy_midi" }
    }
}

/// What can go wrong on the output side. None of these stops the worker.
#[derive(Clone, Debug, PartialEq, Eq)]
pub enum MidiOutputError {
    /// Connecting or reconnecting to a port failed.
    ConnectionError(ConnectErrorKind),
    /// A message could not be written to the open connection.
    SendError(SendError),
    /// A message was to be sent while no port was connected. The message is
    /// handed back and otherwise dropped.
    SendDisconnectedError(MidiMessage),
    /// The ports could not be listed within the allowed number of attempts.
    PortRefreshError,
}

impl MidiOutputError {
    /// The error in words.
    pub open spec fn message(&self) -> Seq<char> {
        match *self {
            MidiOutputError::SendError(error) => error.reason_text(),
            MidiOutputError::SendDisconnectedError(message) => "Couldn't send midi message "@
                + message.debug_text() + "; output is disconnected"@,
            MidiOutputError::ConnectionError(kind) => "Couldn't (re)connect to output port: "@
                + kind.reason_text(),
            MidiOutputError::PortRefreshError => "Couldn't refresh output ports"@,
        }
    }

    /// The error in words.
    pub fn to_string(&self) -> (text: String)
        ensures
            text@ == self.message(),
    {
        match self {
            MidiOutputError::SendError(error) => error.reason().to_owned(),
            MidiOutputError::SendDisconnectedError(message) => {
                let mut text = "Couldn't send midi message ".to_owned();
                message.push_debug(&mut text);
                text.append("; output is disconnected");
                text
            },
            MidiOutputError::ConnectionError(kind) => {
                let mut text = "Couldn't (re)connect to output port: ".to_owned();
                text.append(kind.reason());
                text
            },
            MidiOutputError::PortRefreshError => "Couldn't refresh output ports".to_owned(),
        }
    }
}

/// A command from the application to the output worker.
#[derive(Clone, Debug, PartialEq, Eq)]
pub enum Message {
    RefreshPorts,
    ConnectToPort(MidiOutputPort),
    DisconnectFromPort,
    Midi(MidiMessage),
}

/// A reply from the output worker to the application.
#[derive(Clone, Debug, PartialEq, Eq)]
pub enum Reply {
    AvailablePorts(Vec<(String, MidiOutputPort)>),
    Error(MidiOutputError),
    Connected,
    Disconnected,
}

/// Whether the output worker is connected to a port, as far as the replies
/// drained so far tell.
#[derive(Debug)]
pub struct MidiOutputConnection {
    connected: bool,
}

impl MidiOutputConnection {
    pub closed spec fn spec_is_connected(&self) -> bool {
        self.connected
    }

    #[must_use]
    #[verifier::when_used_as_spec(spec_is_connected)]
    pub fn is_connected(&self) -> (connected: bool)
        ensures
            connected == self.is_connected(),
    {
        self.connected
    }
}

impl Default for MidiOutputConnection {
    fn default() -> (conn: MidiOutputConnection)
        ensures
            !conn.is_connected(),
    {
        MidiOutputConnection { connected: false }
    }
}

/// What a [`MidiOutput`] holds: the last port listing that was drained, and
/// the commands that wait to be moved to the worker, oldest first.
pub struct MidiOutputView {
    pub ports: Seq<(String, MidiOutputPort)>,
    pub commands: Seq<Message>,
}

/// The application's handle for sending MIDI messages.
#[derive(Debug)]
pub struct MidiOutput {
    ports: Vec<(String, MidiOutputPort)>,
    commands: Vec<Message>,
}

impl View for MidiOutput {
    type V = MidiOutputView;

    closed spec fn view(&self) -> MidiOutputView {
        MidiOutputView { ports: self.ports@, commands: self.commands@ }
    }
}

impl MidiOutput {
    /// A handle that knows no ports yet and has nothing queued.
    pub fn new() -> (output: MidiOutput)
        ensures
            output@.ports == Seq::<(String, MidiOutputPort)>::empty(),
            output@.commands == Seq::<Message>::empty(),
    {
        MidiOutput { ports: Vec::new(), commands: Vec::new() }
    }

    /// Asks the worker to list the output ports again.
    pub fn refresh_ports(&mut self)
        ensures
            final(self)@.commands == old(self)@.commands.push(Message::RefreshPorts),
            final(self)@.ports == old(self)@.ports,
    {
        self.commands.push(Message::RefreshPorts);
    }

    /// Asks the worker to connect to `port`.
    pub fn connect(&mut self, port: MidiOutputPort)
        ensures
            final(self)@.commands == old(self)@.commands.push(Message::ConnectToPort(port)),
            final(self)@.ports == old(self)@.ports,
    {
        self.commands.push(Message::ConnectToPort(port));
    }

    /// Asks the worker to close the connection to the current port.
    pub fn disconnect(&mut self)
        ensures
            final(self)@.commands == old(self)@.commands.push(Message::DisconnectFromPort),
            final(self)@.ports == old(self)@.ports,
    {
        self.commands.push(Message::DisconnectFromPort);
    }

    /// Asks the worker to transmit `msg`.
    pub fn send(&mut self, msg: MidiMessage)
        ensures
            final(self)@.commands == old(self)@.commands.push(Message::Midi(msg)),
            final(self)@.ports == old(self)@.ports,
    {
        self.commands.push(Message::Midi(msg));
    }

    /// The output ports and their names, as of the last listing drained.
    #[must_use]
    pub fn ports(&self) -> (ports: &Vec<(String, MidiOutputPort)>)
        ensures
            ports@ == self@.ports,
    {
        &self.ports
    }

    /// Hands out the queued commands, oldest first, and leaves the queue
    /// empty.
    pub fn take_commands(&mut self) -> (commands: Vec<Message>)
        ensures
            commands@ == old(self)@.commands,
            final(self)@.commands == Seq::<Message>::empty(),
            final(self)@.ports == old(self)@.ports,
    {
        let mut commands: Vec<Message> = Vec::new();
        core::mem::swap(&mut self.commands, &mut commands);
        commands
    }
}

/// Makes the two ends of the output side: the handle for the application,
/// which knows no ports yet, and the worker for the driver, which is about
/// to list the ports for the first time.
pub fn setup(settings: MidiOutputSettings) -> (ends: (MidiOutput, MidiOutputTask))
    ensures
        ends.0@.ports == Seq::<(String, MidiOutputPort)>::empty(),
        ends.0@.commands == Seq::<Message>::empty(),
        ends.1@ == (Stage::Listing { failures: 0, resume: None }),
        ends.1.spec_settings() == settings,
{
    (MidiOutput::new(), MidiOutputTask::new(settings))
}

/// The port listing that is current after `replies`: the one carried by the
/// last `AvailablePorts` among them, and `ports` if there is none.
pub open spec fn ports_after(
    ports: Seq<(String, MidiOutputPort)>,
    replies: Seq<Reply>,
) -> Seq<(String, MidiOutputPort)>
    decreases replies.len(),
{
    if replies.len() == 0 {
        ports
    } else {
        match replies.last() {
            Reply::AvailablePorts(listing) => listing@,
            _ => ports_after(ports, replies.drop_last()),
        }
    }
}

/// The connection status after `replies`: what the last `Connected` or
/// `Disconnected` among them says, and `connected` if there is none.
pub open spec fn connected_after(connected: bool, replies: Seq<Reply>) -> bool
    decreases replies.len(),
{
    if replies.len() == 0 {
        connected
    } else {
        match replies.last() {
            Reply::Connected => true,
            Reply::Disconnected => false,
            _ => connected_after(connected, replies.drop_last()),
        }
    }
}

/// The errors that `replies` carry, in their order.
pub open spec fn errors_in(replies: Seq<Reply>) -> Seq<MidiOutputError>
    decreases replies.len(),
{
    if replies.len() == 0 {
        Seq::empty()
    } else {
        let before = errors_in(replies.drop_last());
        match replies.last() {
            Reply::Error(error) => before.push(error),
            _ => before,
        }
    }
}

/// Drains `replies`, which the worker sent in this order: replaces the port
/// snapshot by each listing, sets the connection status at each transition,
/// and returns the errors for the application to see.
pub fn reply(output: &mut MidiOutput, conn: &mut MidiOutputConnection, replies: Vec<Reply>) -> (errors:
    Vec<MidiOutputError>)
    ensures
        final(output)@.ports == ports_after(old(output)@.ports, replies@),
        final(output)@.commands == old(output)@.commands,
        final(conn).is_connected() == connected_after(old(conn).is_connected(), replies@),
        errors@ == errors_in(replies@),
{
    let mut errors: Vec<MidiOutputError> = Vec::new();
    let ghost all = replies@;
    for msg in it: replies
        invariant
            it.seq() == all,
            output@.ports == ports_after(old(output)@.ports, all.take(it.index() as int)),
            output@.commands == old(output)@.commands,
            conn.is_connected() == connected_after(
                old(conn).is_connected(),
                all.take(it.index() as int),
            ),
            errors@ == errors_in(all.take(it.index() as int)),
    {
        proof {
            let done = all.take(it.index() + 1);
            assert(done.drop_last() == all.take(it.index() as int));
        }
        match msg {
            Reply::AvailablePorts(ports) => {
                output.ports = ports;
            },
            Reply::Error(error) => {
                errors.push(error);
            },
            Reply::Connected => {
                conn.connected = true;
            },
            Reply::Disconnected => {
                conn.connected = false;
            },
        }
    }
    proof {
        assert(all.take(all.len() as int) == all);
    }
    errors
}

/// Draining replies in two goes leaves the same connection status as
/// draining them in one.
pub proof fn lemma_connected_after_concat(connected: bool, first: Seq<Reply>, second: Seq<Reply>)
    ensures
        connected_after(connected, first + second) == connected_after(
            connected_after(connected, first),
            second,
        ),
    decreases second.len(),
{
    if second.len() > 0 {
        lemma_connected_after_concat(connected, first, second.drop_last());
        assert((first + second).drop_last() == first + second.drop_last());
    }
}

/// Draining replies in two goes leaves the same port snapshot as draining
/// them in one.
pub proof fn lemma_ports_after_concat(
    ports: Seq<(String, MidiOutputPort)>,
    first: Seq<Reply>,
    second: Seq<Reply>,
)
    ensures
        ports_after(ports, first + second) == ports_after(ports_after(ports, first), second),
    decreases second.len(),
{
    if second.len() > 0 {
        lemma_ports_after_concat(ports, first, second.drop_last());
        assert((first + second).drop_last() == first + second.drop_last());
    }
}

/// Replies that carry no listing leave the port snapshot as it was.
pub proof fn lemma_ports_kept(ports: Seq<(String, MidiOutputPort)>, replies: Seq<Reply>)
    requires
        forall|i: int| 0 <= i < replies.len() ==> !(replies[i] is AvailablePorts),
    ensures
        ports_after(ports, replies) == ports,
    decreases replies.len(),
{
    if replies.len() > 0 {
        lemma_ports_kept(ports, replies.drop_last());
    }
}

} // verus!
