//! What a recording goes through between two ends of physics frames, and
//! what holds of every such run.

use vstd::prelude::*;
use crate::recorder::{lemma_command_start_wf, lemma_reconcile_wf, Command, RecorderView};
use crate::script::{all_resolved, pending_count};

verus! {

/// One of the moments of a tick that come before the end of a physics frame.
pub enum Event {
    /// The input poll, with the timing remainder.
    InputPoll { remainder: Seq<char> },
    /// The start of a physics frame, with its duration.
    FrameStart { frame_time: Seq<char> },
    /// The start of a command.
    CommandStart { cmd: Command, paused: bool, forward_speed: Seq<char>, side_speed: Seq<char> },
}

/// The recording after one event.
pub open spec fn step(recorder: RecorderView, event: Event) -> RecorderView {
    match event {
        Event::InputPoll { remainder } => recorder.push_remainder(remainder),
        Event::FrameStart { frame_time } => recorder.push_frame_time(frame_time),
        Event::CommandStart { cmd, paused, forward_speed, side_speed } => recorder.command_start(
            cmd,
            paused,
            forward_speed,
            side_speed,
        ),
    }
}

/// The recording after a run of events, the first of them first.
pub open spec fn run(recorder: RecorderView, events: Seq<Event>) -> RecorderView
    decreases events.len(),
{
    if events.len() == 0 {
        recorder
    } else {
        step(run(recorder, events.drop_last()), events.last())
    }
}

/// How many of the events are input polls.
pub open spec fn input_polls(events: Seq<Event>) -> nat
    decreases events.len(),
{
    if events.len() == 0 {
        0
    } else {
        input_polls(events.drop_last()) + if events.last() is InputPoll {
            1nat
        } else {
            0nat
        }
    }
}

/// How many of the events are starts of physics frames.
pub open spec fn frame_starts(events: Seq<Event>) -> nat
    decreases events.len(),
{
    if events.len() == 0 {
        0
    } else {
        frame_starts(events.drop_last()) + if events.last() is FrameStart {
            1nat
        } else {
            0nat
        }
    }
}

/// How many of the events are starts of commands.
pub open spec fn command_starts(events: Seq<Event>) -> nat
    decreases events.len(),
{
    if events.len() == 0 {
        0
    } else {
        command_starts(events.drop_last()) + if events.last() is CommandStart {
            1nat
        } else {
            0nat
        }
    }
}

/// Whether an event is the start of a command that takes simulated time.
pub open spec fn takes_time(event: Event) -> bool {
    event matches Event::CommandStart { cmd, .. } && cmd.msec != 0
}

/// Whether every event is the start of a command that takes simulated time.
pub open spec fn all_take_time(events: Seq<Event>) -> bool {
    forall|i: int| 0 <= i < events.len() ==> takes_time(#[trigger] events[i])
}

/// A run of events keeps a recording well formed. Each input poll leaves one
/// more remainder and each start of a physics frame one more frame time.
/// The script only grows, by pending entries at its end, and by no more of
/// them than commands have started.
pub proof fn lemma_run(recorder: RecorderView, events: Seq<Event>)
    requires
        recorder.wf(),
    ensures
        run(recorder, events).wf(),
        run(recorder, events).pending_remainders.len() == recorder.pending_remainders.len()
            + input_polls(events),
        run(recorder, events).pending_frame_times.len() == recorder.pending_frame_times.len()
            + frame_starts(events),
        run(recorder, events).lines.len() >= recorder.lines.len(),
        run(recorder, events).lines.take(recorder.lines.len() as int) == recorder.lines,
        pending_count(run(recorder, events).lines) - pending_count(recorder.lines) == run(
            recorder,
            events,
        ).lines.len() - recorder.lines.len(),
        pending_count(run(recorder, events).lines) <= pending_count(recorder.lines)
            + command_starts(events),
    decreases events.len(),
{
    if events.len() == 0 {
        assert(recorder.lines.take(recorder.lines.len() as int) =~= recorder.lines);
    } else {
        let before = run(recorder, events.drop_last());
        let after = run(recorder, events);
        lemma_run(recorder, events.drop_last());
        match events.last() {
            Event::CommandStart { cmd, paused, forward_speed, side_speed } => {
                lemma_command_start_wf(before, cmd, paused, forward_speed, side_speed);
                assert(after.lines.take(recorder.lines.len() as int) =~= before.lines.take(
                    recorder.lines.len() as int,
                ));
            },
            _ => {},
        }
    }
}

/// Between two ends of physics frames, let as many input polls and as many
/// starts of physics frames come as commands start, in any order. If the
/// frame times and remainders were enough at the beginning, they are enough
/// at the end; no more entries are pending than were before plus the
/// commands that started; and the end of the frame resolves them all. Where
/// an entry was pending, no frame time and no remainder is left afterwards.
pub proof fn lemma_frame_conservation(recorder: RecorderView, events: Seq<Event>, n: nat)
    requires
        recorder.wf(),
        recorder.reconcilable(),
        input_polls(events) == n,
        frame_starts(events) == n,
        command_starts(events) == n,
    ensures
        run(recorder, events).reconcilable(),
        pending_count(run(recorder, events).lines) <= pending_count(recorder.lines) + n,
        run(recorder, events).reconcile().wf(),
        all_resolved(run(recorder, events).reconcile().lines),
        run(recorder, events).reconcile().lines.len() == run(recorder, events).lines.len(),
        pending_count(run(recorder, events).lines) > 0 ==> run(
            recorder,
            events,
        ).reconcile().pending_frame_times.len() == 0 && run(
            recorder,
            events,
        ).reconcile().pending_remainders.len() == 0,
{
    lemma_run(recorder, events);
    lemma_reconcile_wf(run(recorder, events));
}

/// A frame that begins with nothing pending and nothing waiting, and in
/// which every one of the `n` commands gets its entry, ends with nothing
/// waiting: the `n` frame times and the `n` remainders are used up or
/// dropped, and no entry is pending.
pub proof fn lemma_frame_leaves_nothing(recorder: RecorderView, events: Seq<Event>, n: nat)
    requires
        recorder.wf(),
        pending_count(recorder.lines) == 0,
        recorder.pending_frame_times.len() == 0,
        recorder.pending_remainders.len() == 0,
        input_polls(events) == n,
        frame_starts(events) == n,
        command_starts(events) == n,
        pending_count(run(recorder, events).lines) == n,
    ensures
        run(recorder, events).reconcile().pending_frame_times.len() == 0,
        run(recorder, events).reconcile().pending_remainders.len() == 0,
        pending_count(run(recorder, events).reconcile().lines) == 0,
        run(recorder, events).reconcile().lines.len() == recorder.lines.len() + n,
{
    lemma_run(recorder, events);
    lemma_reconcile_wf(run(recorder, events));
}

/// While the last entry is pending and the command before took simulated
/// time, commands that take simulated time change nothing, however many
/// come: they go on with the command that has its entry already.
pub proof fn lemma_split_commands_add_nothing(recorder: RecorderView, events: Seq<Event>)
    requires
        recorder.lines.len() > 0,
        recorder.lines.last().pending(),
        !recorder.last_cmd_was_zero_ms,
        all_take_time(events),
    ensures
        run(recorder, events) == recorder,
    decreases events.len(),
{
    if events.len() > 0 {
        let front = events.drop_last();
        assert forall|i: int| 0 <= i < front.len() implies takes_time(#[trigger] front[i]) by {
            assert(front[i] == events[i]);
        }
        lemma_split_commands_add_nothing(recorder, front);
        assert(takes_time(events[events.len() - 1]));
    }
}

/// A command that takes simulated time and gets an entry, with any number
/// of such commands after it, leaves one entry in the script and no more.
pub proof fn lemma_one_entry_for_split_command(
    recorder: RecorderView,
    cmd: Command,
    paused: bool,
    forward_speed: Seq<char>,
    side_speed: Seq<char>,
    events: Seq<Event>,
)
    requires
        recorder.builds(cmd, paused),
        cmd.msec != 0,
        all_take_time(events),
    ensures
        run(recorder.command_start(cmd, paused, forward_speed, side_speed), events)
            == recorder.command_start(cmd, paused, forward_speed, side_speed),
        run(recorder.command_start(cmd, paused, forward_speed, side_speed), events).lines.len()
            == recorder.lines.len() + 1,
{
    lemma_split_commands_add_nothing(
        recorder.command_start(cmd, paused, forward_speed, side_speed),
        events,
    );
}

/// A command that takes no simulated time always gets an entry while the
/// game is not paused, and so does the command that comes after it.
pub proof fn lemma_zero_time_command_builds(
    recorder: RecorderView,
    cmd: Command,
    forward_speed: Seq<char>,
    side_speed: Seq<char>,
    next: Command,
)
    requires
        cmd.msec == 0,
    ensures
        recorder.builds(cmd, false),
        recorder.command_start(cmd, false, forward_speed, side_speed).lines.len()
            == recorder.lines.len() + 1,
        recorder.command_start(cmd, false, forward_speed, side_speed).builds(next, false),
{
}

} // verus!
