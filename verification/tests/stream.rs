use kanata_observer::message::ServerMessage;
use kanata_observer::stream::{
    ActionOutcome, Command, ConnectionError, Event, Phase, StreamProcessor,
};

fn layer_change(name: &str) -> Event {
    Event::FrameRead {
        bytes_read: name.len() + 28,
        decoded: Some(ServerMessage::LayerChange { new: name.to_string() }),
    }
}

fn frame(bytes_read: usize, message: ServerMessage) -> Event {
    Event::FrameRead { bytes_read, decoded: Some(message) }
}

fn garbage(bytes_read: usize) -> Event {
    Event::FrameRead { bytes_read, decoded: None }
}

/// Conducts a session as a caller would: every read is reported, and where
/// the processor asks for the script, `outcome` is reported before the next
/// read. Gives the script runs asked for and the error of the close, if any.
fn conduct(
    processor: &mut StreamProcessor,
    reads: Vec<Event>,
    outcome: fn(usize) -> ActionOutcome,
) -> (Vec<(String, String)>, Option<ConnectionError>) {
    let mut runs = Vec::new();
    for read in reads {
        match processor.step(read) {
            Some(Command::ReadFrame) => {}
            Some(Command::RunScript { program, layer }) => {
                runs.push((program, layer));
                let next = processor.step(Event::ActionFinished { outcome: outcome(runs.len()) });
                assert!(matches!(next, Some(Command::ReadFrame)));
            }
            Some(Command::Close { error }) => return (runs, Some(error)),
            None => panic!("a read was out of turn"),
        }
    }
    (runs, None)
}

fn succeeded(_: usize) -> ActionOutcome {
    ActionOutcome::Succeeded
}

fn failed(_: usize) -> ActionOutcome {
    ActionOutcome::Failed { stderr: "boom".to_string() }
}

fn run(layer: &str) -> (String, String) {
    ("/opt/hook.sh".to_string(), layer.to_string())
}

#[test]
fn layer_changes_run_the_script_in_order() {
    // {"LayerChange":{"new":"nav"}}, {"LayerNames":{"names":["base","nav"]}},
    // {"LayerChange":{"new":"base"}}, each with its newline.
    let mut processor = StreamProcessor::with_program("/opt/hook.sh".to_string());
    let reads = vec![
        frame(30, ServerMessage::LayerChange { new: "nav".to_string() }),
        frame(
            40,
            ServerMessage::LayerNames { names: vec!["base".to_string(), "nav".to_string()] },
        ),
        frame(31, ServerMessage::LayerChange { new: "base".to_string() }),
    ];
    let (runs, error) = conduct(&mut processor, reads, succeeded);
    assert_eq!(runs, vec![run("nav"), run("base")]);
    assert_eq!(error, None);
    assert_eq!(processor.phase(), Phase::Reading);
}

#[test]
fn layer_names_frame_runs_nothing() {
    let mut processor = StreamProcessor::with_program("/opt/hook.sh".to_string());
    let command = processor.step(frame(
        40,
        ServerMessage::LayerNames { names: vec!["base".to_string(), "nav".to_string()] },
    ));
    assert!(matches!(command, Some(Command::ReadFrame)));
    assert_eq!(processor.phase(), Phase::Reading);
}

#[test]
fn one_run_per_layer_change_among_other_frames() {
    let mut processor = StreamProcessor::with_program("/opt/hook.sh".to_string());
    let reads = vec![
        garbage(7),
        layer_change("a"),
        frame(20, ServerMessage::Error { msg: "no".to_string() }),
        layer_change("b"),
        garbage(1),
        frame(25, ServerMessage::CurrentLayerName { name: "b".to_string() }),
        layer_change("a"),
        layer_change("a"),
    ];
    let (runs, error) = conduct(&mut processor, reads, succeeded);
    assert_eq!(runs, vec![run("a"), run("b"), run("a"), run("a")]);
    assert_eq!(error, None);
}

#[test]
fn run_carries_the_frames_new_field() {
    let mut processor = StreamProcessor::with_program("hook".to_string());
    match processor.step(layer_change("")) {
        Some(Command::RunScript { program, layer }) => {
            assert_eq!(program, "hook");
            assert_eq!(layer, "");
        }
        other => panic!("expected a script run, got {:?}", other),
    }
    assert_eq!(processor.phase(), Phase::Invoking);
    processor.step(Event::ActionFinished { outcome: ActionOutcome::Succeeded });
    match processor.step(layer_change("symbols and spaces ~ \"x\"")) {
        Some(Command::RunScript { program, layer }) => {
            assert_eq!(program, "hook");
            assert_eq!(layer, "symbols and spaces ~ \"x\"");
        }
        other => panic!("expected a script run, got {:?}", other),
    }
}

#[test]
fn other_messages_are_passed_over() {
    let others = vec![
        ServerMessage::LayerNames { names: vec![] },
        ServerMessage::LayerNames { names: vec!["base".to_string()] },
        ServerMessage::CurrentLayerInfo { name: "nav".to_string(), cfg_text: "(x)".to_string() },
        ServerMessage::ConfigFileReload { new: "nav".to_string() },
        ServerMessage::CurrentLayerName { name: "nav".to_string() },
        ServerMessage::MessagePush { message: serde_json::Value::String("nav".to_string()) },
        ServerMessage::MessagePush { message: serde_json::Value::Null },
        ServerMessage::Error { msg: "nav".to_string() },
    ];
    let mut processor = StreamProcessor::with_program("/opt/hook.sh".to_string());
    for message in others {
        let command = processor.step(frame(12, message));
        assert!(matches!(command, Some(Command::ReadFrame)));
        assert_eq!(processor.phase(), Phase::Reading);
    }
}

#[test]
fn undecodable_frames_are_passed_over() {
    let mut processor = StreamProcessor::with_program("/opt/hook.sh".to_string());
    for bytes_read in [1usize, 2, 80, usize::MAX] {
        let command = processor.step(garbage(bytes_read));
        assert!(matches!(command, Some(Command::ReadFrame)));
        assert_eq!(processor.phase(), Phase::Reading);
    }
}

#[test]
fn empty_read_terminates_the_session() {
    let mut processor = StreamProcessor::with_program("/opt/hook.sh".to_string());
    match processor.step(garbage(0)) {
        Some(Command::Close { error }) => assert_eq!(error, ConnectionError::Terminated),
        other => panic!("expected a close, got {:?}", other),
    }
    assert_eq!(processor.phase(), Phase::Closed);
}

#[test]
fn empty_read_terminates_whatever_came_with_it() {
    let mut processor = StreamProcessor::with_program("/opt/hook.sh".to_string());
    let read = Event::FrameRead {
        bytes_read: 0,
        decoded: Some(ServerMessage::LayerChange { new: "nav".to_string() }),
    };
    match processor.step(read) {
        Some(Command::Close { error }) => assert_eq!(error, ConnectionError::Terminated),
        other => panic!("expected a close, got {:?}", other),
    }
    assert_eq!(processor.phase(), Phase::Closed);
}

#[test]
fn failed_read_ends_the_session_with_its_cause() {
    let mut processor = StreamProcessor::with_program("/opt/hook.sh".to_string());
    let read = Event::ReadFailed { cause: "stream did not contain valid UTF-8".to_string() };
    match processor.step(read) {
        Some(Command::Close { error }) => {
            assert_eq!(
                error,
                ConnectionError::ReadFailed {
                    cause: "stream did not contain valid UTF-8".to_string()
                }
            );
            assert_eq!(error.message(), "stream did not contain valid UTF-8");
        }
        other => panic!("expected a close, got {:?}", other),
    }
    assert_eq!(processor.phase(), Phase::Closed);
}

#[test]
fn closed_session_accepts_nothing() {
    let mut processor = StreamProcessor::with_program("/opt/hook.sh".to_string());
    processor.step(garbage(0));
    assert!(processor.step(layer_change("nav")).is_none());
    assert!(processor.step(garbage(0)).is_none());
    assert!(processor.step(Event::ReadFailed { cause: "late".to_string() }).is_none());
    assert!(processor
        .step(Event::ActionFinished { outcome: ActionOutcome::Succeeded })
        .is_none());
    assert_eq!(processor.phase(), Phase::Closed);
}

#[test]
fn nothing_runs_after_the_close() {
    let mut processor = StreamProcessor::with_program("/opt/hook.sh".to_string());
    let reads = vec![layer_change("a"), garbage(0), layer_change("b")];
    let (runs, error) = conduct(&mut processor, reads, succeeded);
    assert_eq!(runs, vec![run("a")]);
    assert_eq!(error, Some(ConnectionError::Terminated));
    assert!(processor.step(layer_change("b")).is_none());
}

#[test]
fn garbage_without_newline_then_close() {
    let mut processor = StreamProcessor::with_program("/opt/hook.sh".to_string());
    let (runs, error) = conduct(&mut processor, vec![garbage(13), garbage(0)], succeeded);
    assert!(runs.is_empty());
    assert_eq!(error, Some(ConnectionError::Terminated));
    assert_eq!(processor.phase(), Phase::Closed);
}

#[test]
fn script_outcome_never_ends_the_session() {
    let outcomes = vec![
        ActionOutcome::Succeeded,
        ActionOutcome::Failed { stderr: String::new() },
        ActionOutcome::Failed { stderr: "exit status 3".to_string() },
        ActionOutcome::LaunchFailed { cause: "No such file or directory".to_string() },
        ActionOutcome::LaunchFailed { cause: "Permission denied".to_string() },
    ];
    let mut processor = StreamProcessor::with_program("/opt/hook.sh".to_string());
    for outcome in outcomes {
        assert!(matches!(processor.step(layer_change("nav")), Some(Command::RunScript { .. })));
        assert_eq!(processor.phase(), Phase::Invoking);
        let command = processor.step(Event::ActionFinished { outcome });
        assert!(matches!(command, Some(Command::ReadFrame)));
        assert_eq!(processor.phase(), Phase::Reading);
    }
}

#[test]
fn failing_script_changes_no_command() {
    let reads = || vec![layer_change("a"), garbage(3), layer_change("b"), garbage(0)];
    let mut calm = StreamProcessor::with_program("/opt/hook.sh".to_string());
    let mut stormy = StreamProcessor::with_program("/opt/hook.sh".to_string());
    let with_success = conduct(&mut calm, reads(), succeeded);
    let with_failure = conduct(&mut stormy, reads(), failed);
    assert_eq!(with_success, with_failure);
    assert_eq!(with_failure.0, vec![run("a"), run("b")]);
}

#[test]
fn no_frame_is_taken_while_the_script_runs() {
    let mut processor = StreamProcessor::with_program("/opt/hook.sh".to_string());
    processor.step(layer_change("nav"));
    assert!(processor.step(layer_change("base")).is_none());
    assert!(processor.step(garbage(0)).is_none());
    assert!(processor.step(Event::ReadFailed { cause: "x".to_string() }).is_none());
    assert_eq!(processor.phase(), Phase::Invoking);
}

#[test]
fn outcome_without_a_run_is_ignored() {
    let mut processor = StreamProcessor::with_program("/opt/hook.sh".to_string());
    assert!(processor
        .step(Event::ActionFinished { outcome: ActionOutcome::Succeeded })
        .is_none());
    assert_eq!(processor.phase(), Phase::Reading);
}

#[test]
fn new_processor_is_reading() {
    let processor = StreamProcessor::new("/usr/local/bin/hook");
    assert_eq!(processor.phase(), Phase::Reading);
    assert_eq!(processor.program(), "/usr/local/bin/hook");
}

#[test]
fn new_processor_resolves_the_home_shorthand() {
    let processor = StreamProcessor::new("~/bin/hook");
    assert!(processor.program().ends_with("/bin/hook"));
    assert_ne!(processor.program(), "~/bin/hook");
}

#[test]
fn with_program_keeps_the_path_as_it_is() {
    let processor = StreamProcessor::with_program("~/bin/hook".to_string());
    assert_eq!(processor.program(), "~/bin/hook");
}

#[test]
fn terminated_reads_as_closed_by_the_daemon() {
    assert_eq!(ConnectionError::Terminated.message(), "connection closed by kanata");
}
