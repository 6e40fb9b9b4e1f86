use bevy_midi::output::worker::{
    Action, After, ConnectMode, Event, MidiOutputTask, Stage, MAX_REFRESH_ATTEMPTS,
};
use bevy_midi::output::{
    reply, Message, MidiOutput, MidiOutputConnection, MidiOutputError, MidiOutputSettings, Reply,
};
use bevy_midi::{ConnectErrorKind, MidiMessage, MidiOutputPort, SendError};

fn out_port(id: &str) -> MidiOutputPort {
    MidiOutputPort::new(id.to_string())
}

fn two_out_ports() -> Vec<(String, MidiOutputPort)> {
    vec![
        ("Synth".to_string(), out_port("out:0")),
        ("Drums".to_string(), out_port("out:1")),
    ]
}

/// A worker past its first listing, with nothing connected.
fn idle_output_worker() -> MidiOutputTask {
    let mut task = MidiOutputTask::new(MidiOutputSettings::default());
    let sent = task.step(Event::Enumerated(Some(two_out_ports())));
    assert_eq!(sent, Some(vec![Reply::AvailablePorts(two_out_ports())]));
    task
}

/// A worker connected to `id`.
fn connected_output_worker(id: &str) -> MidiOutputTask {
    let mut task = idle_output_worker();
    assert_eq!(
        task.step(Event::Command(Message::ConnectToPort(out_port(id)))),
        Some(vec![])
    );
    assert_eq!(task.action(), Action::Connect(out_port(id)));
    assert_eq!(
        task.step(Event::ConnectFinished(Ok(()))),
        Some(vec![Reply::Connected])
    );
    task
}

#[test]
fn output_worker_starts_by_listing_the_ports() {
    let mut task = MidiOutputTask::new(MidiOutputSettings::default());
    assert_eq!(
        task.stage(),
        &Stage::Listing {
            failures: 0,
            resume: None
        }
    );
    assert_eq!(task.action(), Action::Enumerate);
    assert!(!task.is_connected());
    let sent = task.step(Event::Enumerated(Some(two_out_ports())));
    assert_eq!(sent, Some(vec![Reply::AvailablePorts(two_out_ports())]));
    assert_eq!(task.stage(), &Stage::Idle);
    assert_eq!(task.action(), Action::AwaitCommand);
}

#[test]
fn output_default_settings_name_the_library() {
    assert_eq!(MidiOutputSettings::default().port_name, "bevy_midi");
    let task = MidiOutputTask::new(MidiOutputSettings { port_name: "stage piano" });
    assert_eq!(task.settings().port_name, "stage piano");
}

#[test]
fn output_connect_from_idle_announces_the_connection() {
    let mut task = idle_output_worker();
    let sent = task.step(Event::Command(Message::ConnectToPort(out_port("out:1"))));
    assert_eq!(sent, Some(vec![]));
    assert_eq!(
        task.stage(),
        &Stage::Connecting {
            port: out_port("out:1"),
            mode: ConnectMode::Fresh
        }
    );
    assert_eq!(task.action(), Action::Connect(out_port("out:1")));
    assert!(!task.is_connected());
    let sent = task.step(Event::ConnectFinished(Ok(())));
    assert_eq!(sent, Some(vec![Reply::Connected]));
    assert_eq!(
        task.stage(),
        &Stage::Connected {
            port: out_port("out:1")
        }
    );
    assert!(task.is_connected());
    assert_eq!(task.action(), Action::AwaitCommand);
}

#[test]
fn output_connect_failure_from_idle_reports_the_error_only() {
    let mut task = idle_output_worker();
    task.step(Event::Command(Message::ConnectToPort(out_port("gone"))));
    let sent = task.step(Event::ConnectFinished(Err(ConnectErrorKind::InvalidPort)));
    assert_eq!(
        sent,
        Some(vec![Reply::Error(MidiOutputError::ConnectionError(
            ConnectErrorKind::InvalidPort
        ))])
    );
    assert_eq!(task.stage(), &Stage::Idle);
}

#[test]
fn output_switching_ports_closes_the_old_connection_first() {
    let mut task = connected_output_worker("out:0");
    let sent = task.step(Event::Command(Message::ConnectToPort(out_port("out:1"))));
    assert_eq!(sent, Some(vec![]));
    assert_eq!(
        task.stage(),
        &Stage::Closing {
            port: out_port("out:0"),
            then: After::Connect(out_port("out:1"))
        }
    );
    assert_eq!(task.action(), Action::Close);
    assert!(task.is_connected());
    assert_eq!(task.step(Event::Closed), Some(vec![]));
    assert_eq!(task.action(), Action::Connect(out_port("out:1")));
    assert!(!task.is_connected());
    assert_eq!(
        task.step(Event::ConnectFinished(Ok(()))),
        Some(vec![Reply::Connected])
    );
    assert_eq!(
        task.stage(),
        &Stage::Connected {
            port: out_port("out:1")
        }
    );
}

#[test]
fn output_failed_switch_reports_error_and_loss_of_connection() {
    let mut task = connected_output_worker("out:0");
    task.step(Event::Command(Message::ConnectToPort(out_port("out:1"))));
    task.step(Event::Closed);
    let sent = task.step(Event::ConnectFinished(Err(ConnectErrorKind::Other("busy"))));
    assert_eq!(
        sent,
        Some(vec![
            Reply::Error(MidiOutputError::ConnectionError(ConnectErrorKind::Other(
                "busy"
            ))),
            Reply::Disconnected,
        ])
    );
    assert_eq!(task.stage(), &Stage::Idle);
}

#[test]
fn output_disconnect_closes_and_reports() {
    let mut task = connected_output_worker("out:0");
    assert_eq!(
        task.step(Event::Command(Message::DisconnectFromPort)),
        Some(vec![])
    );
    assert_eq!(task.action(), Action::Close);
    assert_eq!(task.step(Event::Closed), Some(vec![Reply::Disconnected]));
    assert_eq!(task.stage(), &Stage::Idle);
    assert!(!task.is_connected());
}

#[test]
fn output_disconnect_when_idle_does_nothing() {
    let mut task = idle_output_worker();
    let sent = task.step(Event::Command(Message::DisconnectFromPort));
    assert_eq!(sent, Some(vec![]));
    assert_eq!(task.stage(), &Stage::Idle);
    assert_eq!(task.action(), Action::AwaitCommand);
}

#[test]
fn output_send_hands_the_same_bytes_to_the_platform() {
    let mut task = connected_output_worker("out:0");
    let sent = task.step(Event::Command(Message::Midi(MidiMessage::from([
        0x90, 60, 127,
    ]))));
    assert_eq!(sent, Some(vec![]));
    match task.action() {
        Action::Send(message) => assert_eq!(message.msg, [0x90, 60, 127]),
        other => panic!("expected a send, got {:?}", other),
    }
    assert_eq!(task.step(Event::SendFinished(Ok(()))), Some(vec![]));
    assert_eq!(
        task.stage(),
        &Stage::Connected {
            port: out_port("out:0")
        }
    );
}

#[test]
fn output_send_failure_is_reported_and_keeps_the_connection() {
    let mut task = connected_output_worker("out:0");
    task.step(Event::Command(Message::Midi(MidiMessage::from([
        0x90, 60, 127,
    ]))));
    let sent = task.step(Event::SendFinished(Err(SendError::Other("write failed"))));
    assert_eq!(
        sent,
        Some(vec![Reply::Error(MidiOutputError::SendError(
            SendError::Other("write failed")
        ))])
    );
    assert!(task.is_connected());
    assert_eq!(task.action(), Action::AwaitCommand);
}

#[test]
fn output_send_while_disconnected_hands_the_message_back() {
    let mut task = idle_output_worker();
    let message = MidiMessage::from([0x80, 61, 0]);
    let sent = task.step(Event::Command(Message::Midi(message)));
    assert_eq!(
        sent,
        Some(vec![Reply::Error(MidiOutputError::SendDisconnectedError(
            message
        ))])
    );
    assert_eq!(task.stage(), &Stage::Idle);
    assert_eq!(task.action(), Action::AwaitCommand);
}

#[test]
fn output_refresh_when_idle_lists_the_ports() {
    let mut task = idle_output_worker();
    assert_eq!(
        task.step(Event::Command(Message::RefreshPorts)),
        Some(vec![])
    );
    assert_eq!(task.action(), Action::Enumerate);
    let ports = vec![("Only".to_string(), out_port("out:7"))];
    assert_eq!(
        task.step(Event::Enumerated(Some(ports.clone()))),
        Some(vec![Reply::AvailablePorts(ports)])
    );
    assert_eq!(task.stage(), &Stage::Idle);
}

#[test]
fn output_refresh_while_connected_is_not_seen_in_the_status() {
    let mut task = connected_output_worker("out:1");
    let mut all: Vec<Reply> = Vec::new();
    all.extend(task.step(Event::Command(Message::RefreshPorts)).unwrap());
    assert_eq!(task.action(), Action::Close);
    all.extend(task.step(Event::Closed).unwrap());
    assert_eq!(task.action(), Action::Enumerate);
    assert!(!task.is_connected());
    all.extend(task.step(Event::Enumerated(Some(two_out_ports()))).unwrap());
    assert_eq!(task.action(), Action::Connect(out_port("out:1")));
    all.extend(task.step(Event::ConnectFinished(Ok(()))).unwrap());
    assert_eq!(all, vec![Reply::AvailablePorts(two_out_ports())]);
    assert_eq!(
        task.stage(),
        &Stage::Connected {
            port: out_port("out:1")
        }
    );
}

#[test]
fn output_refresh_with_failed_reconnect_ends_idle() {
    let mut task = connected_output_worker("out:1");
    let mut all: Vec<Reply> = Vec::new();
    all.extend(task.step(Event::Command(Message::RefreshPorts)).unwrap());
    all.extend(task.step(Event::Closed).unwrap());
    all.extend(task.step(Event::Enumerated(Some(two_out_ports()))).unwrap());
    all.extend(
        task.step(Event::ConnectFinished(Err(ConnectErrorKind::InvalidPort)))
            .unwrap(),
    );
    assert_eq!(
        all,
        vec![
            Reply::AvailablePorts(two_out_ports()),
            Reply::Error(MidiOutputError::ConnectionError(
                ConnectErrorKind::InvalidPort
            )),
            Reply::Disconnected,
        ]
    );
    assert_eq!(task.stage(), &Stage::Idle);
}

#[test]
fn output_listing_is_tried_ten_times_before_giving_up() {
    assert_eq!(MAX_REFRESH_ATTEMPTS, 10);
    let mut task = idle_output_worker();
    task.step(Event::Command(Message::RefreshPorts));
    let mut attempt: u8 = 1;
    while attempt < 10 {
        assert_eq!(task.action(), Action::Enumerate);
        assert_eq!(task.step(Event::Enumerated(None)), Some(vec![]));
        assert_eq!(
            task.stage(),
            &Stage::Listing {
                failures: attempt,
                resume: None
            }
        );
        attempt += 1;
    }
    assert_eq!(task.action(), Action::Enumerate);
    assert_eq!(
        task.step(Event::Enumerated(None)),
        Some(vec![Reply::Error(MidiOutputError::PortRefreshError)])
    );
    assert_eq!(task.stage(), &Stage::Idle);
    assert_eq!(task.action(), Action::AwaitCommand);
}

#[test]
fn output_listing_that_succeeds_on_the_tenth_attempt_is_passed_on() {
    let mut task = connected_output_worker("out:0");
    task.step(Event::Command(Message::RefreshPorts));
    task.step(Event::Closed);
    let mut failed: u8 = 0;
    while failed < 9 {
        assert_eq!(task.step(Event::Enumerated(None)), Some(vec![]));
        failed += 1;
    }
    assert_eq!(
        task.step(Event::Enumerated(Some(two_out_ports()))),
        Some(vec![Reply::AvailablePorts(two_out_ports())])
    );
    assert_eq!(task.action(), Action::Connect(out_port("out:0")));
}

#[test]
fn output_given_up_listing_while_connected_still_reconnects() {
    let mut task = connected_output_worker("out:0");
    task.step(Event::Command(Message::RefreshPorts));
    task.step(Event::Closed);
    let mut failed: u8 = 0;
    while failed < 9 {
        task.step(Event::Enumerated(None));
        failed += 1;
    }
    assert_eq!(
        task.step(Event::Enumerated(None)),
        Some(vec![Reply::Error(MidiOutputError::PortRefreshError)])
    );
    assert_eq!(task.action(), Action::Connect(out_port("out:0")));
    assert_eq!(task.step(Event::ConnectFinished(Ok(()))), Some(vec![]));
    assert!(task.is_connected());
}

#[test]
fn output_event_that_answers_nothing_is_refused() {
    let mut task = idle_output_worker();
    assert_eq!(task.step(Event::Closed), None);
    assert_eq!(task.step(Event::ConnectFinished(Ok(()))), None);
    assert_eq!(task.step(Event::SendFinished(Ok(()))), None);
    assert_eq!(task.step(Event::Enumerated(None)), None);
    assert_eq!(task.stage(), &Stage::Idle);

    let mut task = connected_output_worker("out:0");
    task.step(Event::Command(Message::DisconnectFromPort));
    assert_eq!(task.step(Event::Command(Message::RefreshPorts)), None);
    assert_eq!(
        task.stage(),
        &Stage::Closing {
            port: out_port("out:0"),
            then: After::Disconnect
        }
    );
}

#[test]
fn output_scenario_connect_send_disconnect() {
    let mut output = MidiOutput::new();
    let mut conn = MidiOutputConnection::default();
    let mut task = MidiOutputTask::new(MidiOutputSettings::default());

    // The worker's first listing is the snapshot taken at startup.
    assert_eq!(task.action(), Action::Enumerate);
    let sent = task.step(Event::Enumerated(Some(two_out_ports()))).unwrap();
    assert!(reply(&mut output, &mut conn, sent).is_empty());
    assert_eq!(output.ports(), &two_out_ports());
    assert!(!conn.is_connected());

    // Connect to the first of the two ports.
    let first = output.ports()[0].1.clone();
    output.connect(first);
    let mut commands = output.take_commands();
    assert_eq!(commands, vec![Message::ConnectToPort(out_port("out:0"))]);
    let sent = task.step(Event::Command(commands.remove(0))).unwrap();
    assert!(reply(&mut output, &mut conn, sent).is_empty());
    assert_eq!(task.action(), Action::Connect(out_port("out:0")));
    let sent = task.step(Event::ConnectFinished(Ok(()))).unwrap();
    assert_eq!(sent, vec![Reply::Connected]);
    assert!(reply(&mut output, &mut conn, sent).is_empty());
    assert!(conn.is_connected());

    // Send a Note Off: the platform is to write the same three bytes.
    output.send(MidiMessage::from([0x80, 60, 127]));
    let mut commands = output.take_commands();
    let sent = task.step(Event::Command(commands.remove(0))).unwrap();
    assert!(sent.is_empty());
    assert_eq!(
        task.action(),
        Action::Send(MidiMessage {
            msg: [0x80, 60, 127]
        })
    );
    let sent = task.step(Event::SendFinished(Ok(()))).unwrap();
    assert!(reply(&mut output, &mut conn, sent).is_empty());
    assert!(conn.is_connected());

    // Disconnect.
    output.disconnect();
    let mut commands = output.take_commands();
    let sent = task.step(Event::Command(commands.remove(0))).unwrap();
    assert!(sent.is_empty());
    assert_eq!(task.action(), Action::Close);
    let sent = task.step(Event::Closed).unwrap();
    assert_eq!(sent, vec![Reply::Disconnected]);
    assert!(reply(&mut output, &mut conn, sent).is_empty());
    assert!(!conn.is_connected());

    // No refresh was asked for: the snapshot is the one from startup.
    assert_eq!(output.ports(), &two_out_ports());
}

/// A platform that only keeps track of what the worker's actions leave it
/// with, and answers by the numbers it is given.
struct FakeOutput {
    bound: Option<MidiOutputPort>,
    written: Vec<[u8; 3]>,
    seed: u64,
}

impl FakeOutput {
    fn next(&mut self) -> u64 {
        self.seed = self
            .seed
            .wrapping_mul(6364136223846793005)
            .wrapping_add(1442695040888963407);
        self.seed >> 33
    }

    fn command(&mut self) -> Message {
        match self.next() % 4 {
            0 => Message::RefreshPorts,
            1 => Message::ConnectToPort(out_port(if self.next() % 2 == 0 {
                "out:0"
            } else {
                "out:1"
            })),
            2 => Message::DisconnectFromPort,
            _ => Message::Midi(MidiMessage::from([0x90, (self.next() % 128) as u8, 100])),
        }
    }

    fn serve(&mut self, action: Action) -> Event {
        match action {
            Action::AwaitCommand => Event::Command(self.command()),
            Action::Close => {
                assert!(self.bound.is_some(), "closed what was not open");
                self.bound = None;
                Event::Closed
            }
            Action::Connect(port) => {
                assert!(self.bound.is_none(), "opened a second connection");
                if self.next() % 3 == 0 {
                    Event::ConnectFinished(Err(ConnectErrorKind::InvalidPort))
                } else {
                    self.bound = Some(port);
                    Event::ConnectFinished(Ok(()))
                }
            }
            Action::Enumerate => {
                assert!(self.bound.is_none(), "listed while connected");
                if self.next() % 2 == 0 {
                    Event::Enumerated(None)
                } else {
                    Event::Enumerated(Some(two_out_ports()))
                }
            }
            Action::Send(message) => {
                assert!(self.bound.is_some(), "wrote without a connection");
                self.written.push(message.msg);
                if self.next() % 5 == 0 {
                    Event::SendFinished(Err(SendError::Other("write failed")))
                } else {
                    Event::SendFinished(Ok(()))
                }
            }
        }
    }
}

#[test]
fn output_worker_and_platform_always_agree_on_what_is_held() {
    let mut seed: u64 = 1;
    while seed <= 20 {
        let mut platform = FakeOutput {
            bound: None,
            written: Vec::new(),
            seed,
        };
        let mut output = MidiOutput::new();
        let mut conn = MidiOutputConnection::default();
        let mut task = MidiOutputTask::new(MidiOutputSettings::default());
        let mut steps = 0;
        while steps < 2000 {
            let action = task.action();
            let event = platform.serve(action);
            let sent = task.step(event).expect("the event answers the action");
            reply(&mut output, &mut conn, sent);
            assert_eq!(task.is_connected(), platform.bound.is_some());
            match task.stage() {
                Stage::Connected { port } => {
                    assert_eq!(Some(port), platform.bound.as_ref());
                    assert!(conn.is_connected());
                }
                Stage::Idle => {
                    assert!(platform.bound.is_none());
                    assert!(!conn.is_connected());
                }
                _ => {}
            }
            steps += 1;
        }
        seed += 1;
    }
}
