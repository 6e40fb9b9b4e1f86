use bevy_midi::input::{
    debug, reply, Drained, Message, MidiData, MidiInput, MidiInputConnection, MidiInputError,
    Reply,
};
use bevy_midi::{ConnectErrorKind, MidiInputPort, MidiMessage};

fn facade_in_port(id: &str) -> MidiInputPort {
    MidiInputPort::new(id.to_string())
}

#[test]
fn input_port_handle_keeps_its_identifier() {
    let port = MidiInputPort::new("hw:1,0,2".to_string());
    assert_eq!(port.id(), "hw:1,0,2");
    assert_eq!(port.clone(), port);
    assert_ne!(port, facade_in_port("hw:1,0,3"));
}

#[test]
fn input_handle_starts_empty() {
    let mut input = MidiInput::new();
    assert!(input.ports().is_empty());
    assert!(input.take_commands().is_empty());
    assert!(!MidiInputConnection::default().is_connected());
}


#[test]
fn input_commands_are_queued_in_the_order_given() {
    let mut input = MidiInput::new();
    input.refresh_ports();
    input.connect(facade_in_port("a"));
    input.disconnect();
    input.connect(facade_in_port("b"));
    assert_eq!(
        input.take_commands(),
        vec![
            Message::RefreshPorts,
            Message::ConnectToPort(facade_in_port("a")),
            Message::DisconnectFromPort,
            Message::ConnectToPort(facade_in_port("b")),
        ]
    );
    assert!(input.take_commands().is_empty());
}

#[test]
fn input_drain_sorts_the_replies_by_kind_and_keeps_their_order() {
    let mut input = MidiInput::new();
    let mut conn = MidiInputConnection::default();
    input.refresh_ports();
    let first = vec![("A".to_string(), facade_in_port("a"))];
    let second = vec![
        ("B".to_string(), facade_in_port("b")),
        ("C".to_string(), facade_in_port("c")),
    ];
    let one = MidiData {
        stamp: 1,
        message: MidiMessage::from([0x90, 60, 1]),
    };
    let two = MidiData {
        stamp: 2,
        message: MidiMessage::from([0x80, 60, 0]),
    };
    let drained = reply(
        &mut input,
        &mut conn,
        vec![
            Reply::AvailablePorts(first),
            Reply::Connected,
            Reply::Midi(one),
            Reply::Error(MidiInputError::PortRefreshError),
            Reply::AvailablePorts(second.clone()),
            Reply::Midi(two),
            Reply::Error(MidiInputError::ConnectionError(
                ConnectErrorKind::Other("unplugged"),
            )),
            Reply::Disconnected,
        ],
    );
    assert_eq!(
        drained,
        Drained {
            errors: vec![
                MidiInputError::PortRefreshError,
                MidiInputError::ConnectionError(ConnectErrorKind::Other("unplugged")),
            ],
            midi: vec![one, two],
        }
    );
    assert_eq!(input.ports(), &second);
    assert!(!conn.is_connected());
    assert_eq!(input.take_commands(), vec![Message::RefreshPorts]);
}

#[test]
fn input_drain_without_a_listing_keeps_the_snapshot() {
    let mut input = MidiInput::new();
    let mut conn = MidiInputConnection::default();
    let ports = vec![("A".to_string(), facade_in_port("a"))];
    reply(&mut input, &mut conn, vec![Reply::AvailablePorts(ports.clone())]);
    reply(
        &mut input,
        &mut conn,
        vec![
            Reply::Connected,
            Reply::Error(MidiInputError::PortRefreshError),
        ],
    );
    assert_eq!(input.ports(), &ports);
    assert!(conn.is_connected());
}

#[test]
fn input_errors_read_as_sentences() {
    assert_eq!(
        MidiInputError::ConnectionError(ConnectErrorKind::InvalidPort).to_string(),
        "Couldn't (re)connect to input port: invalid port"
    );
    assert_eq!(
        MidiInputError::ConnectionError(ConnectErrorKind::Other("device busy")).to_string(),
        "Couldn't (re)connect to input port: device busy"
    );
    assert_eq!(
        MidiInputError::PortRefreshError.to_string(),
        "Couldn't refresh input ports"
    );
}

#[test]
fn input_log_line_names_the_note() {
    let on = MidiData {
        stamp: 0,
        message: MidiMessage::from([0x90, 60, 127]),
    };
    assert_eq!(debug(&on), "NoteOn: C5 - Raw: [144, 60, 127]");
    let off = MidiData {
        stamp: 0,
        message: MidiMessage::from([0x83, 61, 0]),
    };
    assert_eq!(debug(&off), "NoteOff: C#/Db5 - Raw: [131, 61, 0]");
    let other = MidiData {
        stamp: 0,
        message: MidiMessage::from([0xB0, 7, 100]),
    };
    assert_eq!(debug(&other), "Other: [176, 7, 100]");
    let top = MidiData {
        stamp: 0,
        message: MidiMessage::from([0x9F, 255, 9]),
    };
    assert_eq!(debug(&top), "NoteOn: D#/Eb21 - Raw: [159, 255, 9]");
}
