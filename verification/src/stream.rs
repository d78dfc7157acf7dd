//! The message stream processor: what one session does with each frame.
//!
//! A session is a dialogue. The processor hands out a [`Command`]; the caller
//! performs it on the live connection and hands back the [`Event`] that
//! resulted; the processor answers with the next command. The caller starts
//! with [`Command::ReadFrame`] and stops at [`Command::Close`].

use crate::message::{MessageView, ServerMessage};
use crate::paths::{expands_to, tilde};
use vstd::prelude::*;

verus! {

/// Why a session ended. Every end of a session is a lost connection.
#[derive(Debug, PartialEq, Eq)]
pub enum ConnectionError {
    /// The peer closed the connection: a read returned no bytes.
    Terminated,
    /// A read failed; `cause` is the transport's own description.
    ReadFailed { cause: String },
}

/// The mathematical content of a [`ConnectionError`].
pub enum ConnectionErrorView {
    Terminated,
    ReadFailed { cause: Seq<char> },
}

impl View for ConnectionError {
    type V = ConnectionErrorView;

    open spec fn view(&self) -> ConnectionErrorView {
        match self {
            ConnectionError::Terminated => ConnectionErrorView::Terminated,
            ConnectionError::ReadFailed { cause } => ConnectionErrorView::ReadFailed {
                cause: cause@,
            },
        }
    }
}

impl ConnectionErrorView {
    /// The cause as it is reported to the operator.
    pub open spec fn message(self) -> Seq<char> {
        match self {
            ConnectionErrorView::Terminated => "connection closed by kanata"@,
            ConnectionErrorView::ReadFailed { cause } => cause,
        }
    }
}

impl ConnectionError {
    /// The cause as it is reported to the operator.
    pub fn message(&self) -> (text: String)
        ensures
            text@ == self@.message(),
    {
        match self {
            ConnectionError::Terminated => String::from_str("connection closed by kanata"),
            ConnectionError::ReadFailed { cause } => cause.clone(),
        }
    }
}

/// How a run of the external script ended.
#[derive(Debug, PartialEq, Eq)]
pub enum ActionOutcome {
    /// The script ran and exited with status zero.
    Succeeded,
    /// The script ran and exited with another status; `stderr` is what it
    /// wrote to its standard error.
    Failed { stderr: String },
    /// The script could not be started at all.
    LaunchFailed { cause: String },
}

/// The mathematical content of an [`ActionOutcome`].
pub enum ActionOutcomeView {
    Succeeded,
    Failed { stderr: Seq<char> },
    LaunchFailed { cause: Seq<char> },
}

impl View for ActionOutcome {
    type V = ActionOutcomeView;

    open spec fn view(&self) -> ActionOutcomeView {
        match self {
            ActionOutcome::Succeeded => ActionOutcomeView::Succeeded,
            ActionOutcome::Failed { stderr } => ActionOutcomeView::Failed { stderr: stderr@ },
            ActionOutcome::LaunchFailed { cause } => ActionOutcomeView::LaunchFailed {
                cause: cause@,
            },
        }
    }
}

/// What the caller reports back to the processor.
#[derive(Debug)]
pub enum Event {
    /// A read of one line returned `bytes_read` bytes. `decoded` is the
    /// message that the line holds, or `None` where it holds none that this
    /// client knows: broken JSON and unknown tags alike.
    FrameRead { bytes_read: usize, decoded: Option<ServerMessage> },
    /// A read failed.
    ReadFailed { cause: String },
    /// The script that the processor asked for has been dealt with.
    ActionFinished { outcome: ActionOutcome },
}

/// The mathematical content of an [`Event`].
pub enum EventView {
    FrameRead { bytes_read: nat, decoded: Option<MessageView> },
    ReadFailed { cause: Seq<char> },
    ActionFinished { outcome: ActionOutcomeView },
}

impl View for Event {
    type V = EventView;

    open spec fn view(&self) -> EventView {
        match self {
            Event::FrameRead { bytes_read, decoded } => EventView::FrameRead {
                bytes_read: *bytes_read as nat,
                decoded: match decoded {
                    Some(message) => Some(message@),
                    None => None,
                },
            },
            Event::ReadFailed { cause } => EventView::ReadFailed { cause: cause@ },
            Event::ActionFinished { outcome } => EventView::ActionFinished { outcome: outcome@ },
        }
    }
}

/// What the processor asks of the caller.
#[derive(Debug)]
pub enum Command {
    /// Read the next line from the connection and report it.
    ReadFrame,
    /// Run `program` with `layer` as its only argument, wait for it, and
    /// report how it went.
    RunScript { program: String, layer: String },
    /// Give the connection up: the session is over.
    Close { error: ConnectionError },
}

/// The mathematical content of a [`Command`].
pub enum CommandView {
    ReadFrame,
    RunScript { program: Seq<char>, layer: Seq<char> },
    Close { error: ConnectionErrorView },
}

impl View for Command {
    type V = CommandView;

    open spec fn view(&self) -> CommandView {
        match self {
            Command::ReadFrame => CommandView::ReadFrame,
            Command::RunScript { program, layer } => CommandView::RunScript {
                program: program@,
                layer: layer@,
            },
            Command::Close { error } => CommandView::Close { error: error@ },
        }
    }
}

/// Where a session stands.
#[derive(Debug, Clone, Copy, PartialEq, Eq, Structural)]
pub enum Phase {
    /// Waiting for the next frame.
    Reading,
    /// Waiting for the script to finish. No frame is read meanwhile.
    Invoking,
    /// Over. Nothing is accepted any more.
    Closed,
}

/// The mathematical content of a [`StreamProcessor`].
pub struct ProcessorView {
    /// The script, with its home-directory shorthand resolved.
    pub program: Seq<char>,
    pub phase: Phase,
}

/// The layer whose script run a frame sets off, if it sets one off: the `new`
/// field of a `LayerChange` that arrived in a read of at least one byte.
pub open spec fn announced_layer(event: EventView) -> Option<Seq<char>> {
    match event {
        EventView::FrameRead { bytes_read, decoded: Some(message) } => if bytes_read > 0 {
            message.layer_change()
        } else {
            None
        },
        _ => None,
    }
}

/// The processor's whole behaviour: the phase it moves to and the command it
/// gives when `event` arrives, or `None` where the event is out of turn and
/// is ignored.
///
/// While reading, an empty read or a failed one closes the session; a
/// `LayerChange` asks for the script; every other frame, decodable or not,
/// is passed over. While the script runs, only its outcome is awaited, and
/// whatever it is, reading resumes.
pub open spec fn transition(processor: ProcessorView, event: EventView) -> Option<
    (Phase, CommandView),
> {
    match (processor.phase, event) {
        (Phase::Reading, EventView::FrameRead { bytes_read, decoded }) => if bytes_read == 0 {
            Some((Phase::Closed, CommandView::Close { error: ConnectionErrorView::Terminated }))
        } else {
            match announced_layer(event) {
                Some(layer) => Some(
                    (Phase::Invoking, CommandView::RunScript { program: processor.program, layer }),
                ),
                None => Some((Phase::Reading, CommandView::ReadFrame)),
            }
        },
        (Phase::Reading, EventView::ReadFailed { cause }) => Some(
            (Phase::Closed, CommandView::Close { error: ConnectionErrorView::ReadFailed { cause } }),
        ),
        (Phase::Invoking, EventView::ActionFinished { outcome }) => Some(
            (Phase::Reading, CommandView::ReadFrame),
        ),
        _ => None,
    }
}

/// The decisions of one session.
#[derive(Debug)]
pub struct StreamProcessor {
    program: String,
    phase: Phase,
}

impl View for StreamProcessor {
    type V = ProcessorView;

    closed spec fn view(&self) -> ProcessorView {
        ProcessorView { program: self.program@, phase: self.phase }
    }
}

impl StreamProcessor {
    /// A processor for a fresh connection. The home-directory shorthand in
    /// `script_path` is resolved here, once for the whole session.
    pub fn new(script_path: &str) -> (processor: Self)
        ensures
            processor@.phase == Phase::Reading,
            expands_to(script_path@, processor@.program),
    {
        Self::with_program(tilde(script_path))
    }

    /// A processor for a fresh connection that runs `program` as it stands.
    pub fn with_program(program: String) -> (processor: Self)
        ensures
            processor@ == (ProcessorView { program: program@, phase: Phase::Reading }),
    {
        StreamProcessor { program, phase: Phase::Reading }
    }

    /// The script that this session runs.
    pub fn program(&self) -> (program: &str)
        ensures
            program@ == self@.program,
    {
        self.program.as_str()
    }

    /// Where the session stands.
    pub fn phase(&self) -> (phase: Phase)
        ensures
            phase == self@.phase,
    {
        self.phase
    }

    /// Takes in what the caller reports and says what to do next.
    ///
    /// An event that is out of turn (a frame while the script runs, anything
    /// once the session is closed) changes nothing and gets no command.
    pub fn step(&mut self, event: Event) -> (command: Option<Command>)
        ensures
            match transition(old(self)@, event@) {
                Some((phase, expected)) => {
                    &&& command matches Some(given)
                    &&& given@ == expected
                    &&& final(self)@ == (ProcessorView { program: old(self)@.program, phase })
                },
                None => command is None && final(self)@ == old(self)@,
            },
    {
        match self.phase {
            Phase::Reading => match event {
                Event::FrameRead { bytes_read, decoded } => {
                    if bytes_read == 0 {
                        self.phase = Phase::Closed;
                        Some(Command::Close { error: ConnectionError::Terminated })
                    } else {
                        let layer = match decoded {
                            Some(message) => message.into_layer_change(),
                            None => None,
                        };
                        match layer {
                            Some(layer) => {
                                self.phase = Phase::Invoking;
                                Some(Command::RunScript { program: self.program.clone(), layer })
                            },
                            None => Some(Command::ReadFrame),
                        }
                    }
                },
                Event::ReadFailed { cause } => {
                    self.phase = Phase::Closed;
                    Some(Command::Close { error: ConnectionError::ReadFailed { cause } })
                },
                Event::ActionFinished { outcome: _ } => None,
            },
            Phase::Invoking => match event {
                Event::ActionFinished { outcome: _ } => {
                    self.phase = Phase::Reading;
                    Some(Command::ReadFrame)
                },
                _ => None,
            },
            Phase::Closed => None,
        }
    }
}

} // verus!
