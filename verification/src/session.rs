//! The recording session: idle or recording, the two console commands that
//! switch between them, and the four moments of a tick.

use vstd::prelude::*;
use vstd::string::*;
use crate::recorder::{Command, ReconcileCheck, Recorder, RecorderView, SpeedRequests};
use crate::script::{Script, ScriptView};
use crate::text::texts;

verus! {

/// Which parts of the engine were found. Each field is named after the
/// engine's function or variable that it stands for.
#[derive(Clone, Copy, Debug, PartialEq, Eq, Structural)]
pub struct Engine {
    /// Console commands can be registered.
    pub commands: bool,
    /// The function that polls the input.
    pub cl_move: bool,
    /// The state of the client.
    pub cls: bool,
    /// The timing remainder.
    pub frametime_remainder: bool,
    /// The duration of a physics frame.
    pub host_frametime: bool,
    /// The function that runs a physics frame.
    pub sv_frame: bool,
    /// The state of the server.
    pub sv: bool,
    /// The function that starts a command.
    pub cmd_start: bool,
}

/// A console command: its name and how to use it.
#[derive(Clone, Copy, Debug)]
pub struct ConsoleCommand {
    pub name: &'static str,
    pub usage: &'static str,
}

/// The recording of gameplay into a script, as a part of a larger program.
#[derive(Clone, Copy, Debug)]
pub struct TasRecording;

impl TasRecording {
    /// The name of this part.
    pub fn name(&self) -> (name: &'static str)
        ensures
            name@ == "TAS Recording"@,
    {
        "TAS Recording"
    }

    /// The console commands of this part: the one that starts a recording,
    /// and the one that stops it.
    pub fn commands(&self) -> (commands: Vec<ConsoleCommand>)
        ensures
            commands@.len() == 2,
            commands@[0].name@ == "bxt_tas_recording_start"@,
            commands@[0].usage@
                == "Usage: bxt_tas_recording_start <filename.hltas>\n Starts recording gameplay into a HLTAS script.\n"@,
            commands@[1].name@ == "bxt_tas_recording_stop"@,
            commands@[1].usage@ == "Usage: bxt_tas_recording_stop\n Stops gameplay recording.\n"@,
    {
        let mut commands: Vec<ConsoleCommand> = Vec::new();
        commands.push(
            ConsoleCommand {
                name: "bxt_tas_recording_start",
                usage: "Usage: bxt_tas_recording_start <filename.hltas>\n Starts recording gameplay into a HLTAS script.\n",
            },
        );
        commands.push(
            ConsoleCommand {
                name: "bxt_tas_recording_stop",
                usage: "Usage: bxt_tas_recording_stop\n Stops gameplay recording.\n",
            },
        );
        commands
    }

    /// Whether the engine offers all that a recording needs.
    pub open spec fn spec_is_enabled(&self, engine: Engine) -> bool {
        &&& engine.commands
        &&& engine.cl_move
        &&& engine.cls
        &&& engine.frametime_remainder
        &&& engine.host_frametime
        &&& engine.sv_frame
        &&& engine.sv
    }

    /// Whether the engine offers all that a recording needs.
    pub fn is_enabled(&self, engine: &Engine) -> (enabled: bool)
        ensures
            enabled == self.spec_is_enabled(*engine),
    {
        engine.commands && engine.cl_move && engine.cls && engine.frametime_remainder
            && engine.host_frametime && engine.sv_frame && engine.sv
    }
}

/// What the user is told.
#[derive(Clone, Copy, Debug, PartialEq, Eq, Structural)]
pub enum Notice {
    RecordingStarted,
    AlreadyRecording,
    RecordingStopped,
    NoRecordingInProgress,
}

impl Notice {
    /// The words of the notice.
    pub open spec fn spec_text(self) -> Seq<char> {
        match self {
            Notice::RecordingStarted => "Recording started\n"@,
            Notice::AlreadyRecording => "Already recording\n"@,
            Notice::RecordingStopped => "Recording stopped\n"@,
            Notice::NoRecordingInProgress => "No recording in progress\n"@,
        }
    }

    /// The words of the notice.
    pub fn text(self) -> (text: &'static str)
        ensures
            text@ == self.spec_text(),
    {
        match self {
            Notice::RecordingStarted => "Recording started\n",
            Notice::AlreadyRecording => "Already recording\n",
            Notice::RecordingStopped => "Recording stopped\n",
            Notice::NoRecordingInProgress => "No recording in progress\n",
        }
    }
}

/// What the command that stops a recording did.
#[derive(Debug)]
pub enum Stop {
    /// The engine does not offer what a recording needs: nothing was done.
    Disabled,
    /// There was no recording.
    NotRecording,
    /// The recording ended; its script is to be written.
    Finished(Script),
}

/// What the command that stops a recording did, with texts as sequences of
/// characters.
pub enum StopView {
    Disabled,
    NotRecording,
    Finished(ScriptView),
}

impl View for Stop {
    type V = StopView;

    open spec fn view(&self) -> StopView {
        match self {
            Stop::Disabled => StopView::Disabled,
            Stop::NotRecording => StopView::NotRecording,
            Stop::Finished(script) => StopView::Finished(script@),
        }
    }
}

impl StopView {
    /// What the user is told at once. Of a finished recording the user hears
    /// when the script has been written.
    pub open spec fn notice(self) -> Option<Notice> {
        match self {
            StopView::NotRecording => Some(Notice::NoRecordingInProgress),
            _ => None,
        }
    }
}

impl Stop {
    /// What the user is told at once. Of a finished recording the user hears
    /// when the script has been written.
    pub fn notice(&self) -> (notice: Option<Notice>)
        ensures
            notice == self@.notice(),
    {
        match self {
            Stop::NotRecording => Some(Notice::NoRecordingInProgress),
            _ => None,
        }
    }
}

/// What became of writing a finished script to its file. A failure comes
/// with the words of its cause.
#[derive(Debug)]
pub enum WriteOutcome {
    Written,
    OpenFailed(String),
    WriteFailed(String),
}

/// What became of writing a finished script, with texts as sequences of
/// characters.
pub enum WriteOutcomeView {
    Written,
    OpenFailed(Seq<char>),
    WriteFailed(Seq<char>),
}

impl View for WriteOutcome {
    type V = WriteOutcomeView;

    open spec fn view(&self) -> WriteOutcomeView {
        match self {
            WriteOutcome::Written => WriteOutcomeView::Written,
            WriteOutcome::OpenFailed(cause) => WriteOutcomeView::OpenFailed(cause@),
            WriteOutcome::WriteFailed(cause) => WriteOutcomeView::WriteFailed(cause@),
        }
    }
}

/// A message that names what failed and why, on a line of its own.
pub open spec fn failure_message(what: Seq<char>, cause: Seq<char>) -> Seq<char> {
    what + cause + "\n"@
}

impl WriteOutcomeView {
    /// What the user is told once the script of a finished recording has
    /// been dealt with. If the file could not be opened, that is all the
    /// user hears. Else the user hears that the recording stopped, after the
    /// failure to write if there was one.
    pub open spec fn messages(self) -> Seq<Seq<char>> {
        match self {
            WriteOutcomeView::Written => seq![Notice::RecordingStopped.spec_text()],
            WriteOutcomeView::OpenFailed(cause) => seq![
                failure_message("Error opening the output file: "@, cause),
            ],
            WriteOutcomeView::WriteFailed(cause) => seq![
                failure_message("Error writing to the output file: "@, cause),
                Notice::RecordingStopped.spec_text(),
            ],
        }
    }
}

/// Builds a message that names what failed and why.
fn make_failure_message(what: &str, cause: &str) -> (message: String)
    ensures
        message@ == failure_message(what@, cause@),
{
    let mut message = String::from_str(what);
    message.append(cause);
    message.append("\n");
    message
}

impl WriteOutcome {
    /// What the user is told once the script of a finished recording has
    /// been dealt with, in order.
    pub fn messages(&self) -> (messages: Vec<String>)
        ensures
            texts(messages@) == self@.messages(),
    {
        let mut messages: Vec<String> = Vec::new();
        match self {
            WriteOutcome::Written => {},
            WriteOutcome::OpenFailed(cause) => {
                messages.push(
                    make_failure_message("Error opening the output file: ", cause.as_str()),
                );
                assert(texts(messages@) =~= self@.messages());
                return messages;
            },
            WriteOutcome::WriteFailed(cause) => {
                messages.push(
                    make_failure_message("Error writing to the output file: ", cause.as_str()),
                );
            },
        }
        messages.push(String::from_str(Notice::RecordingStopped.text()));
        assert(texts(messages@) =~= self@.messages());
        messages
    }
}

/// The session: idle, or recording.
#[derive(Debug)]
pub enum State {
    Idle,
    Recording(Recorder),
}

/// The session, with the recording as its view.
pub enum StateView {
    Idle,
    Recording(RecorderView),
}

impl View for State {
    type V = StateView;

    open spec fn view(&self) -> StateView {
        match self {
            State::Idle => StateView::Idle,
            State::Recording(recorder) => StateView::Recording(recorder@),
        }
    }
}

impl State {
    /// Whether the session is recording.
    pub fn is_recording(&self) -> (recording: bool)
        ensures
            recording == self@ is Recording,
    {
        match self {
            State::Recording(_) => true,
            State::Idle => false,
        }
    }

    /// The recording, if there is one.
    pub fn recorder(&self) -> (recorder: Option<&Recorder>)
        ensures
            match recorder {
                Some(recorder) => self@ == StateView::Recording(recorder@),
                None => self@ is Idle,
            },
    {
        match self {
            State::Recording(recorder) => Some(recorder),
            State::Idle => None,
        }
    }
}

impl Default for State {
    fn default() -> (state: State)
        ensures
            state@ is Idle,
    {
        State::Idle
    }
}

/// Whether a client in this state is in a game: connected or active.
pub open spec fn spec_in_game(client_state: i32) -> bool {
    client_state == 4 || client_state == 5
}

/// Whether a client in this state is in a game: connected or active.
pub fn in_game(client_state: i32) -> (yes: bool)
    ensures
        yes == spec_in_game(client_state),
{
    client_state == 4 || client_state == 5
}

impl StateView {
    /// The session and the notice after the command that starts a recording.
    pub open spec fn start(self, enabled: bool, filename: Seq<char>) -> (StateView, Option<Notice>) {
        if !enabled {
            (self, None)
        } else if self is Idle {
            (StateView::Recording(RecorderView::new(filename)), Some(Notice::RecordingStarted))
        } else {
            (self, Some(Notice::AlreadyRecording))
        }
    }

    /// The session and the outcome after the command that stops a recording.
    pub open spec fn stop(self, enabled: bool) -> (StateView, StopView) {
        if !enabled {
            (self, StopView::Disabled)
        } else {
            match self {
                StateView::Idle => (StateView::Idle, StopView::NotRecording),
                StateView::Recording(recorder) => (
                    StateView::Idle,
                    StopView::Finished(
                        ScriptView { filename: recorder.filename, lines: recorder.lines },
                    ),
                ),
            }
        }
    }

    /// What holds of every session: its recording, if there is one, is well
    /// formed.
    pub open spec fn wf(self) -> bool {
        match self {
            StateView::Recording(recorder) => recorder.wf(),
            StateView::Idle => true,
        }
    }

    /// Whether the session takes in what an input poll or the start of a
    /// physics frame brings.
    pub open spec fn listens(self, engine: Engine, client_state: i32) -> bool {
        self is Recording && engine.cmd_start && spec_in_game(client_state)
    }

    /// The session after an input poll.
    pub open spec fn on_cl_move(self, engine: Engine, client_state: i32, remainder: Seq<char>) -> StateView {
        match self {
            StateView::Recording(recorder) if self.listens(engine, client_state) => StateView::Recording(
                recorder.push_remainder(remainder),
            ),
            _ => self,
        }
    }

    /// The session after the start of a physics frame.
    pub open spec fn on_sv_frame_start(
        self,
        engine: Engine,
        client_state: i32,
        frame_time: Seq<char>,
    ) -> StateView {
        match self {
            StateView::Recording(recorder) if self.listens(engine, client_state) => StateView::Recording(
                recorder.push_frame_time(frame_time),
            ),
            _ => self,
        }
    }

    /// The speeds that the entry for a command sets.
    pub open spec fn speed_requests(self, cmd: Command, paused: bool) -> SpeedRequests {
        match self {
            StateView::Recording(recorder) => recorder.speed_requests(cmd, paused),
            StateView::Idle => SpeedRequests { forward: None, side: None },
        }
    }

    /// The session after the start of a command.
    pub open spec fn on_cmd_start(
        self,
        cmd: Command,
        paused: bool,
        forward_speed: Seq<char>,
        side_speed: Seq<char>,
    ) -> StateView {
        match self {
            StateView::Recording(recorder) => StateView::Recording(
                recorder.command_start(cmd, paused, forward_speed, side_speed),
            ),
            StateView::Idle => self,
        }
    }

    /// Whether the end of a physics frame finds enough frame times and
    /// remainders.
    pub open spec fn reconcilable(self) -> bool {
        match self {
            StateView::Recording(recorder) => recorder.reconcilable(),
            StateView::Idle => true,
        }
    }

    /// Whether the end of a physics frame finds enough frame times and
    /// remainders, and if not, which of them is missed first.
    pub open spec fn reconcile_check(self) -> ReconcileCheck {
        match self {
            StateView::Recording(recorder) => recorder.reconcile_check(),
            StateView::Idle => ReconcileCheck::Ready,
        }
    }

    /// The session after the end of a physics frame.
    pub open spec fn on_sv_frame_end(self) -> StateView {
        match self {
            StateView::Recording(recorder) => StateView::Recording(recorder.reconcile()),
            StateView::Idle => self,
        }
    }
}

/// Stopping twice in a row: after the first time the session is idle, so
/// the second time gives no script, leaves the session idle and tells the
/// user that no recording is in progress. On an idle session both times do
/// and say the same.
pub proof fn lemma_stop_twice(state: StateView)
    ensures
        state.stop(true).0 is Idle,
        state.stop(true).0.stop(true) == (StateView::Idle, StopView::NotRecording),
        state.stop(true).0.stop(true).1.notice() == Some(Notice::NoRecordingInProgress),
        state is Idle ==> state.stop(true) == state.stop(true).0.stop(true),
{
}

/// An idle session stays idle through every moment of a tick.
pub proof fn lemma_idle_stays_idle(
    engine: Engine,
    client_state: i32,
    text: Seq<char>,
    cmd: Command,
    paused: bool,
    forward_speed: Seq<char>,
    side_speed: Seq<char>,
)
    ensures
        StateView::Idle.on_cl_move(engine, client_state, text) is Idle,
        StateView::Idle.on_sv_frame_start(engine, client_state, text) is Idle,
        StateView::Idle.on_cmd_start(cmd, paused, forward_speed, side_speed) is Idle,
        StateView::Idle.reconcilable(),
        StateView::Idle.on_sv_frame_end() is Idle,
{
}

/// Whether the session takes in what an input poll or the start of a
/// physics frame brings: it records, the start of commands is in sight, and
/// the client is in a game.
pub fn listens(state: &State, engine: &Engine, client_state: i32) -> (yes: bool)
    ensures
        yes == state@.listens(*engine, client_state),
{
    engine.cmd_start && state.is_recording() && in_game(client_state)
}

/// The console command that starts a recording into `filename`. Without what
/// a recording needs from the engine nothing happens. Else an idle session
/// begins to record, and a session that records already stays as it is; the
/// user is told which.
pub fn tas_recording_start(state: &mut State, engine: &Engine, filename: String) -> (notice: Option<
    Notice,
>)
    ensures
        (final(state)@, notice) == old(state)@.start(
            TasRecording.spec_is_enabled(*engine),
            filename@,
        ),
        old(state)@.wf() ==> final(state)@.wf(),
{
    if !TasRecording.is_enabled(engine) {
        return None;
    }
    match state {
        State::Idle => {
            *state = State::Recording(Recorder::new(filename));
            Some(Notice::RecordingStarted)
        },
        State::Recording(_) => Some(Notice::AlreadyRecording),
    }
}

/// The console command that stops the recording. Without what a recording
/// needs from the engine nothing happens. Else the session is idle
/// afterwards, and if it was recording, the script and the name of its file
/// come back.
pub fn tas_recording_stop(state: &mut State, engine: &Engine) -> (outcome: Stop)
    ensures
        (final(state)@, outcome@) == old(state)@.stop(TasRecording.spec_is_enabled(*engine)),
        old(state)@.wf() ==> final(state)@.wf(),
{
    if !TasRecording.is_enabled(engine) {
        return Stop::Disabled;
    }
    let mut last = State::Idle;
    core::mem::swap(state, &mut last);
    match last {
        State::Recording(recorder) => Stop::Finished(recorder.finish()),
        State::Idle => Stop::NotRecording,
    }
}

/// The input poll, with the timing remainder of the moment as decimal text.
/// It counts only for a session that records, with the start of commands
/// in sight and the client in a game.
pub fn on_cl_move(state: &mut State, engine: &Engine, client_state: i32, remainder: String)
    ensures
        final(state)@ == old(state)@.on_cl_move(*engine, client_state, remainder@),
        old(state)@.wf() ==> final(state)@.wf(),
{
    if !engine.cmd_start {
        return;
    }
    match state {
        State::Recording(recorder) => {
            if in_game(client_state) {
                recorder.on_cl_move(remainder);
            }
        },
        State::Idle => {},
    }
}

/// The start of a physics frame, with its duration as decimal text. It
/// counts only for a session that records, with the start of commands in
/// sight and the client in a game.
pub fn on_sv_frame_start(state: &mut State, engine: &Engine, client_state: i32, frame_time: String)
    ensures
        final(state)@ == old(state)@.on_sv_frame_start(*engine, client_state, frame_time@),
        old(state)@.wf() ==> final(state)@.wf(),
{
    if !engine.cmd_start {
        return;
    }
    match state {
        State::Recording(recorder) => {
            if in_game(client_state) {
                recorder.on_sv_frame_start(frame_time);
            }
        },
        State::Idle => {},
    }
}

/// The speeds that the entry for a command will set, for the caller to turn
/// into text before `on_cmd_start`.
pub fn speed_requests(state: &State, cmd: &Command, paused: bool) -> (requests: SpeedRequests)
    ensures
        requests == state@.speed_requests(*cmd, paused),
{
    match state {
        State::Recording(recorder) => recorder.speed_requests(cmd, paused),
        State::Idle => SpeedRequests { forward: None, side: None },
    }
}

/// The start of a command. `paused` says whether the game is paused;
/// `forward_speed` and `side_speed` are the texts of the values that
/// `speed_requests` asks for.
pub fn on_cmd_start(
    state: &mut State,
    cmd: &Command,
    paused: bool,
    forward_speed: &str,
    side_speed: &str,
)
    ensures
        final(state)@ == old(state)@.on_cmd_start(*cmd, paused, forward_speed@, side_speed@),
        old(state)@.wf() ==> final(state)@.wf(),
{
    match state {
        State::Recording(recorder) => {
            recorder.on_cmd_start(cmd, paused, forward_speed, side_speed);
        },
        State::Idle => {},
    }
}

/// Whether the end of a physics frame would find enough frame times and
/// remainders, and if not, which of the two runs out first.
pub fn reconcile_check(state: &State) -> (check: ReconcileCheck)
    ensures
        check == state@.reconcile_check(),
        check is Ready <==> state@.reconcilable(),
{
    match state {
        State::Recording(recorder) => recorder.reconcile_check(),
        State::Idle => ReconcileCheck::Ready,
    }
}

/// The end of a physics frame: the pending entries get their durations.
pub fn on_sv_frame_end(state: &mut State)
    requires
        old(state)@.reconcilable(),
    ensures
        final(state)@ == old(state)@.on_sv_frame_end(),
        old(state)@.wf() ==> final(state)@.wf(),
{
    match state {
        State::Recording(recorder) => {
            recorder.on_sv_frame_end();
        },
        State::Idle => {},
    }
}

/// The end of a physics frame for a caller that has not looked whether the
/// frame times and remainders are enough. Where they are, the pending
/// entries get their durations. Where they are not, nothing changes, and the
/// outcome tells which of the two is missed first.
pub fn try_on_sv_frame_end(state: &mut State) -> (check: ReconcileCheck)
    ensures
        check == old(state)@.reconcile_check(),
        final(state)@ == if check is Ready {
            old(state)@.on_sv_frame_end()
        } else {
            old(state)@
        },
        old(state)@.wf() ==> final(state)@.wf(),
{
    let check = reconcile_check(state);
    match check {
        ReconcileCheck::Ready => on_sv_frame_end(state),
        _ => {},
    }
    check
}

} // verus!
