//! MIDI input: the application's handle on the input worker.
//!
//! The application queues commands on a [`MidiInput`] and, once per tick,
//! hands the replies that the worker has sent to [`reply`], which brings the
//! port snapshot and the connection status up to date and hands out the
//! messages that came in. Moving commands to the worker and replies back is
//! the embedding's part.

use crate::errors::ConnectErrorKind;
use crate::input::worker::{MidiInputTask, Stage};
use crate::message::MidiMessage;
use crate::notes::{note_name, push_note_name};
use crate::ports::MidiInputPort;
use vstd::prelude::*;
use vstd::string::StringExecFns;

pub mod worker;

verus! {

/// The kinds of incoming messages that the platform is to hold back.
#[derive(Clone, Copy, Debug, PartialEq, Eq)]
pub struct Ignore {
    /// System-exclusive messages.
    pub sysex: bool,
    /// Timing messages.
    pub time: bool,
    /// Active-sensing messages.
    pub active_sense: bool,
}

/// Settings of the input worker.
#[derive(Clone, Debug)]
pub struct MidiInputSettings {
    /// The name under which the worker shows itself to the platform.
    pub client_name: &'static str,
    /// The name that the worker gives to its connections.
    pub port_name: &'static str,
    /// What the platform is to hold back.
    pub ignore: Ignore,
}

impl Default for MidiInputSettings {
    fn default() -> (settings: MidiInputSettings)
        ensures
            settings.client_name@ == "bevy_midi"@,
            settings.port_name@ == "bevy_midi"@,
            settings.ignore == (Ignore { sysex: false, time: false, active_sense: false }),
    {
        MidiInputSettings {
            client_name: "bevy_midi",
            port_name: "bevy_midi",
            ignore: Ignore { sysex: false, time: false, active_sense: false },
        }
    }
}

/// A message that came in, with the time at which it did.
#[derive(Clone, Copy, Debug, PartialEq, Eq)]
pub struct MidiData {
    /// Microseconds since a moment that is fixed for the connection.
    pub stamp: u64,
    pub message: MidiMessage,
}

/// What can go wrong on the input side. None of these stops the worker.
#[derive(Clone, Debug, PartialEq, Eq)]
pub enum MidiInputError {
    /// Connecting or reconnecting to a port failed.
    ConnectionError(ConnectErrorKind),
    /// The ports could not be listed within the allowed number of attempts.
    PortRefreshError,
}

impl MidiInputError {
    /// The error in words.
    pub open spec fn message(&self) -> Seq<char> {
        match *self {
            MidiInputError::ConnectionError(kind) => "Couldn't (re)connect to input port: "@
                + kind.reason_text(),
            MidiInputError::PortRefreshError => "Couldn't refresh input ports"@,
        }
    }

    /// The error in words.
    pub fn to_string(&self) -> (text: String)
        ensures
            text@ == self.message(),
    {
        match self {
            MidiInputError::ConnectionError(kind) => {
                let mut text = "Couldn't (re)connect to input port: ".to_owned();
                text.append(kind.reason());
                text
            },
            MidiInputError::PortRefreshError => "Couldn't refresh input ports".to_owned(),
        }
    }
}

/// The line that tells of `data` in a log: for a note, whether it went on
/// or off, its name and the raw bytes; for anything else, the raw bytes.
pub open spec fn debug_line(data: MidiData) -> Seq<char> {
    if data.message.is_note_on() {
        "NoteOn: "@ + note_name(data.message.msg[1]) + " - Raw: "@ + data.message.raw_text()
    } else if data.message.is_note_off() {
        "NoteOff: "@ + note_name(data.message.msg[1]) + " - Raw: "@ + data.message.raw_text()
    } else {
        "Other: "@ + data.message.raw_text()
    }
}

/// The line that tells of `data` in a log.
pub fn debug(data: &MidiData) -> (line: String)
    ensures
        line@ == debug_line(*data),
{
    let pitch: u8 = data.message.msg[1];
    if data.message.is_note_on() {
        let mut line = "NoteOn: ".to_owned();
        push_note_name(&mut line, pitch);
        line.append(" - Raw: ");
        data.message.push_raw(&mut line);
        line
    } else if data.message.is_note_off() {
        let mut line = "NoteOff: ".to_owned();
        push_note_name(&mut line, pitch);
        line.append(" - Raw: ");
        data.message.push_raw(&mut line);
        line
    } else {
        let mut line = "Other: ".to_owned();
        data.message.push_raw(&mut line);
        line
    }
}

/// A command from the application to the input worker.
#[derive(Clone, Debug, PartialEq, Eq)]
pub enum Message {
    RefreshPorts,
    ConnectToPort(MidiInputPort),
    DisconnectFromPort,
}

/// A reply from the input worker to the application.
#[derive(Clone, Debug, PartialEq, Eq)]
pub enum Reply {
    AvailablePorts(Vec<(String, MidiInputPort)>),
    Error(MidiInputError),
    Connected,
    Disconnected,
    Midi(MidiData),
}

/// Whether the input worker is connected to a port, as far as the replies
/// drained so far tell.
#[derive(Debug)]
pub struct MidiInputConnection {
    connected: bool,
}

impl MidiInputConnection {
    pub closed spec fn spec_is_connected(&self) -> bool {
        self.connected
    }

    #[must_use]
    #[verifier::when_used_as_spec(spec_is_connected)]
    pub fn is_connected(&self) -> (connected: bool)
        ensures
            connected == self.is_connected(),
    {
        self.connected
    }
}

impl Default for MidiInputConnection {
    fn default() -> (conn: MidiInputConnection)
        ensures
            !conn.is_connected(),
    {
        MidiInputConnection { connected: false }
    }
}

/// What a [`MidiInput`] holds: the last port listing that was drained, and
/// the commands that wait to be moved to the worker, oldest first.
pub struct MidiInputView {
    pub ports: Seq<(String, MidiInputPort)>,
    pub commands: Seq<Message>,
}

/// The application's handle for receiving MIDI messages.
#[derive(Debug)]
pub struct MidiInput {
    ports: Vec<(String, MidiInputPort)>,
    commands: Vec<Message>,
}

impl View for MidiInput {
    type V = MidiInputView;

    closed spec fn view(&self) -> MidiInputView {
        MidiInputView { ports: self.ports@, commands: self.commands@ }
    }
}

impl MidiInput {
    /// A handle that knows no ports yet and has nothing queued.
    pub fn new() -> (input: MidiInput)
        ensures
            input@.ports == Seq::<(String, MidiInputPort)>::empty(),
            input@.commands == Seq::<Message>::empty(),
    {
        MidiInput { ports: Vec::new(), commands: Vec::new() }
    }

    /// Asks the worker to list the input ports again.
    ///
    /// A connected worker closes its connection for the listing and opens it
    /// again afterwards, so messages that come in meanwhile may be missed.
    pub fn refresh_ports(&mut self)
        ensures
            final(self)@.commands == old(self)@.commands.push(Message::RefreshPorts),
            final(self)@.ports == old(self)@.ports,
    {
        self.commands.push(Message::RefreshPorts);
    }

    /// Asks the worker to connect to `port`.
    pub fn connect(&mut self, port: MidiInputPort)
        ensures
            final(self)@.commands == old(self)@.commands.push(Message::ConnectToPort(port)),
            final(self)@.ports == old(self)@.ports,
    {
        self.commands.push(Message::ConnectToPort(port));
    }

    /// Asks the worker to close the connection to the current port.
    pub fn disconnect(&mut self)
        ensures
            final(self)@.commands == old(self)@.commands.push(Message::DisconnectFromPort),
            final(self)@.ports == old(self)@.ports,
    {
        self.commands.push(Message::DisconnectFromPort);
    }

    /// The input ports and their names, as of the last listing drained.
    #[must_use]
    pub fn ports(&self) -> (ports: &Vec<(String, MidiInputPort)>)
        ensures
            ports@ == self@.ports,
    {
        &self.ports
    }

    /// Hands out the queued commands, oldest first, and leaves the queue
    /// empty.
    pub fn take_commands(&mut self) -> (commands: Vec<Message>)
        ensures
            commands@ == old(self)@.commands,
            final(self)@.commands == Seq::<Message>::empty(),
            final(self)@.ports == old(self)@.ports,
    {
        let mut commands: Vec<Message> = Vec::new();
        core::mem::swap(&mut self.commands, &mut commands);
        commands
    }
}

/// Makes the two ends of the input side: the handle for the application,
/// which knows no ports yet, and the worker for the driver, which is about
/// to list the ports for the first time.
pub fn setup(settings: MidiInputSettings) -> (ends: (MidiInput, MidiInputTask))
    ensures
        ends.0@.ports == Seq::<(String, MidiInputPort)>::empty(),
        ends.0@.commands == Seq::<Message>::empty(),
        ends.1@ == (Stage::Listing { failures: 0, resume: None }),
        ends.1.spec_settings() == settings,
{
    (MidiInput::new(), MidiInputTask::new(settings))
}

/// The port listing that is current after `replies`: the one carried by the
/// last `AvailablePorts` among them, and `ports` if there is none.
pub open spec fn ports_after(
    ports: Seq<(String, MidiInputPort)>,
    replies: Seq<Reply>,
) -> Seq<(String, MidiInputPort)>
    decreases replies.len(),
{
    if replies.len() == 0 {
        ports
    } else {
        match replies.last() {
            Reply::AvailablePorts(listing) => listing@,
            _ => ports_after(ports, replies.drop_last()),
        }
    }
}

/// The connection status after `replies`: what the last `Connected` or
/// `Disconnected` among them says, and `connected` if there is none.
pub open spec fn connected_after(connected: bool, replies: Seq<Reply>) -> bool
    decreases replies.len(),
{
    if replies.len() == 0 {
        connected
    } else {
        match replies.last() {
            Reply::Connected => true,
            Reply::Disconnected => false,
            _ => connected_after(connected, replies.drop_last()),
        }
    }
}

/// The errors that `replies` carry, in their order.
pub open spec fn errors_in(replies: Seq<Reply>) -> Seq<MidiInputError>
    decreases replies.len(),
{
    if replies.len() == 0 {
        Seq::empty()
    } else {
        let before = errors_in(replies.drop_last());
        match replies.last() {
            Reply::Error(error) => before.push(error),
            _ => before,
        }
    }
}

/// The messages that `replies` carry, in their order.
pub open spec fn midi_in(replies: Seq<Reply>) -> Seq<MidiData>
    decreases replies.len(),
{
    if replies.len() == 0 {
        Seq::empty()
    } else {
        let before = midi_in(replies.drop_last());
        match replies.last() {
            Reply::Midi(data) => before.push(data),
            _ => before,
        }
    }
}

/// What one drain hands to the application.
#[derive(Debug, PartialEq, Eq)]
pub struct Drained {
    /// The errors that the worker reported, oldest first.
    pub errors: Vec<MidiInputError>,
    /// The messages that came in, oldest first.
    pub midi: Vec<MidiData>,
}

/// Drains `replies`, which the worker sent in this order: replaces the port
/// snapshot by each listing, sets the connection status at each transition,
/// and returns the errors and the incoming messages for the application.
pub fn reply(input: &mut MidiInput, conn: &mut MidiInputConnection, replies: Vec<Reply>) -> (out:
    Drained)
    ensures
        final(input)@.ports == ports_after(old(input)@.ports, replies@),
        final(input)@.commands == old(input)@.commands,
        final(conn).is_connected() == connected_after(old(conn).is_connected(), replies@),
        out.errors@ == errors_in(replies@),
        out.midi@ == midi_in(replies@),
{
    let mut errors: Vec<MidiInputError> = Vec::new();
    let mut midi: Vec<MidiData> = Vec::new();
    let ghost all = replies@;
    for msg in it: replies
        invariant
            it.seq() == all,
            input@.ports == ports_after(old(input)@.ports, all.take(it.index() as int)),
            input@.commands == old(input)@.commands,
            conn.is_connected() == connected_after(
                old(conn).is_connected(),
                all.take(it.index() as int),
            ),
            errors@ == errors_in(all.take(it.index() as int)),
            midi@ == midi_in(all.take(it.index() as int)),
    {
        proof {
            let done = all.take(it.index() + 1);
            assert(done.drop_last() == all.take(it.index() as int));
        }
        match msg {
            Reply::AvailablePorts(ports) => {
                input.ports = ports;
            },
            Reply::Error(error) => {
                errors.push(error);
            },
            Reply::Connected => {
                conn.connected = true;
            },
            Reply::Disconnected => {
                conn.connected = false;
            },
            Reply::Midi(data) => {
                midi.push(data);
            },
        }
    }
    proof {
        assert(all.take(all.len() as int) == all);
    }
    Drained { errors, midi }
}

/// Replies drained in two goes hand out the same messages as the same
/// replies drained in one: each message once, in the order of arrival.
pub proof fn lemma_midi_in_concat(first: Seq<Reply>, second: Seq<Reply>)
    ensures
        midi_in(first + second) == midi_in(first) + midi_in(second),
    decreases second.len(),
{
    if second.len() > 0 {
        lemma_midi_in_concat(first, second.drop_last());
        assert((first + second).drop_last() == first + second.drop_last());
    }
}

/// However many messages have piled up while the application did not
/// drain, the drain hands out every one of them, once, in the order in
/// which they came in.
pub proof fn lemma_midi_in_keeps_all(data: Seq<MidiData>)
    ensures
        midi_in(data.map_values(|d: MidiData| Reply::Midi(d))) == data,
    decreases data.len(),
{
    let replies = data.map_values(|d: MidiData| Reply::Midi(d));
    if data.len() > 0 {
        lemma_midi_in_keeps_all(data.drop_last());
        assert(replies.drop_last() == data.drop_last().map_values(|d: MidiData| Reply::Midi(d)));
    }
}

/// Replies that carry no listing leave the port snapshot as it was.
pub proof fn lemma_ports_kept(ports: Seq<(String, MidiInputPort)>, replies: Seq<Reply>)
    requires
        forall|i: int| 0 <= i < replies.len() ==> !(replies[i] is AvailablePorts),
    ensures
        ports_after(ports, replies) == ports,
    decreases replies.len(),
{
    if replies.len() > 0 {
        lemma_ports_kept(ports, replies.drop_last());
    }
}

/// Draining replies in two goes leaves the same connection status as
/// draining them in one.
pub proof fn lemma_connected_after_concat(connected: bool, first: Seq<Reply>, second: Seq<Reply>)
    ensures
        connected_after(connected, first + second) == connected_after(
            connected_after(connected, first),
            second,
        ),
    decreases second.len(),
{
    if second.len() > 0 {
        lemma_connected_after_concat(connected, first, second.drop_last());
        assert((first + second).drop_last() == first + second.drop_last());
    }
}

/// Draining replies in two goes leaves the same port snapshot as draining
/// them in one.
pub proof fn lemma_ports_after_concat(
    ports: Seq<(String, MidiInputPort)>,
    first: Seq<Reply>,
    second: Seq<Reply>,
)
    ensures
        ports_after(ports, first + second) == ports_after(ports_after(ports, first), second),
    decreases second.len(),
{
    if second.len() > 0 {
        lemma_ports_after_concat(ports, first, second.drop_last());
        assert((first + second).drop_last() == first + second.drop_last());
    }
}

} // verus!
