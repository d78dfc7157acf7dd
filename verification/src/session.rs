//! Whole sessions: what the stream processor does over every sequence of
//! reads, stated and proved over its transition function.

use crate::message::MessageView;
use crate::stream::{
    announced_layer, transition, ActionOutcomeView, CommandView, ConnectionErrorView, EventView,
    Phase, ProcessorView,
};
use vstd::prelude::*;

verus! {

/// One turn of a session: what a read of the connection gives, and how the
/// script ends should that read set it off.
pub struct Exchange {
    /// The read: a `FrameRead` or a `ReadFailed`.
    pub read: EventView,
    /// The script's outcome, looked at only where the read asks for a run.
    pub outcome: ActionOutcomeView,
}

/// A processor together with the commands it has given so far.
pub struct Progress {
    pub processor: ProcessorView,
    pub commands: Seq<CommandView>,
}

/// Hands one event to the processor and records the command it answers with.
pub open spec fn deliver(progress: Progress, event: EventView) -> Progress {
    match transition(progress.processor, event) {
        Some((phase, command)) => Progress {
            processor: ProcessorView { program: progress.processor.program, phase },
            commands: progress.commands.push(command),
        },
        None => progress,
    }
}

/// A session as an obedient caller conducts it: each read is reported to the
/// processor, and where the processor then asks for the script, the script's
/// outcome is reported before the next read.
pub open spec fn session(program: Seq<char>, exchanges: Seq<Exchange>) -> Progress
    decreases exchanges.len(),
{
    if exchanges.len() == 0 {
        Progress {
            processor: ProcessorView { program, phase: Phase::Reading },
            commands: Seq::empty(),
        }
    } else {
        let turn = exchanges.last();
        let read = deliver(session(program, exchanges.drop_last()), turn.read);
        if read.processor.phase == Phase::Invoking {
            deliver(read, EventView::ActionFinished { outcome: turn.outcome })
        } else {
            read
        }
    }
}

/// Whether a read ends the session: it returned no bytes, or it failed.
pub open spec fn closes(read: EventView) -> bool {
    match read {
        EventView::FrameRead { bytes_read, decoded } => bytes_read == 0,
        EventView::ReadFailed { cause } => true,
        EventView::ActionFinished { outcome } => false,
    }
}

/// The error that a closing read ends the session with.
pub open spec fn closing_error(read: EventView) -> ConnectionErrorView {
    match read {
        EventView::ReadFailed { cause } => ConnectionErrorView::ReadFailed { cause },
        _ => ConnectionErrorView::Terminated,
    }
}

/// The script run that a turn calls for, if it calls for one.
pub open spec fn run_called_for(program: Seq<char>) -> spec_fn(Exchange) -> Option<CommandView> {
    |turn: Exchange|
        match announced_layer(turn.read) {
            Some(layer) => Some(CommandView::RunScript { program, layer }),
            None => None,
        }
}

/// Picks the script runs out of a sequence of commands.
pub open spec fn is_run() -> spec_fn(CommandView) -> bool {
    |command: CommandView| command is RunScript
}

/// A frame that is no `LayerChange` sets nothing off: while reading, a
/// non-empty read whose line decodes to any other message is answered with
/// the request for the next frame.
pub proof fn lemma_other_messages_are_passed_over(
    processor: ProcessorView,
    bytes_read: nat,
    message: MessageView,
)
    requires
        processor.phase == Phase::Reading,
        bytes_read > 0,
        !(message is LayerChange),
    ensures
        transition(processor, EventView::FrameRead { bytes_read, decoded: Some(message) })
            == Some((Phase::Reading, CommandView::ReadFrame)),
{
}

/// A frame that does not decode sets nothing off and ends nothing: while
/// reading, a non-empty read without a message is answered with the request
/// for the next frame.
pub proof fn lemma_undecodable_frames_are_passed_over(processor: ProcessorView, bytes_read: nat)
    requires
        processor.phase == Phase::Reading,
        bytes_read > 0,
    ensures
        transition(processor, EventView::FrameRead { bytes_read, decoded: None }) == Some(
            (Phase::Reading, CommandView::ReadFrame),
        ),
{
}

/// An empty read always ends the session: while reading, a read of no bytes
/// closes the processor with `Terminated`, whatever came with it, and a
/// closed processor accepts nothing more.
pub proof fn lemma_empty_read_terminates(
    processor: ProcessorView,
    decoded: Option<MessageView>,
    later: EventView,
)
    requires
        processor.phase == Phase::Reading,
    ensures
        transition(processor, EventView::FrameRead { bytes_read: 0, decoded }) == Some(
            (Phase::Closed, CommandView::Close { error: ConnectionErrorView::Terminated }),
        ),
        transition(ProcessorView { program: processor.program, phase: Phase::Closed }, later)
            is None,
{
}

/// The script cannot end a session: while it runs, every outcome, success,
/// failure and failure to launch alike, is answered with the request for the
/// next frame.
pub proof fn lemma_action_outcome_never_closes(processor: ProcessorView, outcome: ActionOutcomeView)
    requires
        processor.phase == Phase::Invoking,
    ensures
        transition(processor, EventView::ActionFinished { outcome }) == Some(
            (Phase::Reading, CommandView::ReadFrame),
        ),
{
}

/// A session ends for one reason only, a lost connection: the processor
/// gives `Close` exactly when it is reading and the read returned no bytes or
/// failed, and the error it gives is that read's.
pub proof fn lemma_close_only_on_lost_connection(processor: ProcessorView, event: EventView)
    ensures
        (processor.phase == Phase::Reading && closes(event)) <==> (transition(processor, event)
            matches Some((_, command)) && command is Close),
        processor.phase == Phase::Reading && closes(event) ==> transition(processor, event)
            == Some((Phase::Closed, CommandView::Close { error: closing_error(event) })),
        transition(processor, event) matches Some((phase, _)) && phase == Phase::Closed
            ==> processor.phase == Phase::Reading && closes(event),
{
}

/// One thing at a time: while the script runs, no frame is taken in. Only
/// the script's outcome is in turn.
pub proof fn lemma_no_frame_while_script_runs(processor: ProcessorView, event: EventView)
    requires
        processor.phase == Phase::Invoking,
    ensures
        transition(processor, event) is Some <==> event is ActionFinished,
{
}

/// Between turns a session is reading or closed, never in the middle of a
/// script run, and it keeps its script.
pub proof fn lemma_session_between_turns(program: Seq<char>, exchanges: Seq<Exchange>)
    ensures
        session(program, exchanges).processor.program == program,
        session(program, exchanges).processor.phase != Phase::Invoking,
    decreases exchanges.len(),
{
    if exchanges.len() > 0 {
        lemma_session_between_turns(program, exchanges.drop_last());
    }
}

/// Exactly one script run per `LayerChange`, in order of arrival: in a
/// session whose reads are all frames, the script runs that the processor
/// asks for are those of the `LayerChange` frames, each with that frame's
/// `new` field as the argument, in the order in which the frames arrived.
/// Frames of other kinds and frames that do not decode add nothing, and the
/// session is still reading at the end.
pub proof fn lemma_one_run_per_layer_change(program: Seq<char>, exchanges: Seq<Exchange>)
    requires
        forall|i: int| 0 <= i < exchanges.len() ==> !closes(#[trigger] exchanges[i].read),
    ensures
        session(program, exchanges).commands.filter(is_run()) == exchanges.filter_map(
            run_called_for(program),
        ),
        session(program, exchanges).processor.phase == Phase::Reading,
    decreases exchanges.len(),
{
    if exchanges.len() == 0 {
        session(program, exchanges).commands.lemma_filter_len(is_run());
    } else {
        let earlier = exchanges.drop_last();
        let turn = exchanges.last();
        assert forall|i: int| 0 <= i < earlier.len() implies !closes(
            #[trigger] earlier[i].read,
        ) by {
            assert(earlier[i] == exchanges[i]);
        }
        lemma_one_run_per_layer_change(program, earlier);
        lemma_session_between_turns(program, earlier);
        let before = session(program, earlier);
        let read = deliver(before, turn.read);
        match transition(before.processor, turn.read) {
            Some((phase, command)) => {
                before.commands.lemma_filter_push(command, is_run());
                if phase == Phase::Invoking {
                    read.commands.lemma_filter_push(CommandView::ReadFrame, is_run());
                    assert(earlier.filter_map(run_called_for(program)) + seq![command]
                        =~= earlier.filter_map(run_called_for(program)).push(command));
                }
            },
            None => {},
        }
    }
}

/// What the script does has no bearing on the session: two sessions with the
/// same reads give the same commands and end in the same state, however the
/// script's outcomes differ between them.
pub proof fn lemma_outcomes_do_not_matter(
    program: Seq<char>,
    first: Seq<Exchange>,
    second: Seq<Exchange>,
)
    requires
        first.len() == second.len(),
        forall|i: int| 0 <= i < first.len() ==> (#[trigger] first[i]).read == second[i].read,
    ensures
        session(program, first) == session(program, second),
    decreases first.len(),
{
    if first.len() > 0 {
        assert forall|i: int| 0 <= i < first.drop_last().len() implies (
        #[trigger] first.drop_last()[i]).read == second.drop_last()[i].read by {
            assert(first.drop_last()[i] == first[i]);
            assert(second.drop_last()[i] == second[i]);
        }
        lemma_outcomes_do_not_matter(program, first.drop_last(), second.drop_last());
        assert(first.last().read == second.last().read) by {
            assert(first.last() == first[first.len() - 1]);
        }
    }
}

/// A closing read is the end: once a read has returned no bytes or failed,
/// the session is closed, its last command is the `Close` with that read's
/// error, and nothing that arrives afterwards adds a command. The script
/// runs asked for are those of the `LayerChange` frames before that read.
pub proof fn lemma_close_is_final(program: Seq<char>, exchanges: Seq<Exchange>, at: int)
    requires
        0 <= at < exchanges.len(),
        closes(exchanges[at].read),
        forall|i: int| 0 <= i < at ==> !closes(#[trigger] exchanges[i].read),
    ensures
        session(program, exchanges) == session(program, exchanges.take(at + 1)),
        session(program, exchanges).processor.phase == Phase::Closed,
        session(program, exchanges).commands.len() > 0,
        session(program, exchanges).commands.last() == (CommandView::Close {
            error: closing_error(exchanges[at].read),
        }),
        session(program, exchanges).commands.filter(is_run()) == exchanges.take(at).filter_map(
            run_called_for(program),
        ),
    decreases exchanges.len(),
{
    let earlier = exchanges.drop_last();
    if at == exchanges.len() - 1 {
        assert(exchanges.take(at + 1) =~= exchanges);
        assert(exchanges.take(at) =~= earlier);
        assert forall|i: int| 0 <= i < earlier.len() implies !closes(
            #[trigger] earlier[i].read,
        ) by {
            assert(earlier[i] == exchanges[i]);
        }
        lemma_one_run_per_layer_change(program, earlier);
        session(program, earlier).commands.lemma_filter_push(
            CommandView::Close { error: closing_error(exchanges[at].read) },
            is_run(),
        );
    } else {
        assert(earlier[at] == exchanges[at]);
        assert forall|i: int| 0 <= i < at implies !closes(#[trigger] earlier[i].read) by {
            assert(earlier[i] == exchanges[i]);
        }
        lemma_close_is_final(program, earlier, at);
        assert(earlier.take(at + 1) =~= exchanges.take(at + 1));
        assert(earlier.take(at) =~= exchanges.take(at));
    }
}

} // verus!
