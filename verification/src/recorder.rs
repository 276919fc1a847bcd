//! The recorder: the script in progress, the values that wait to be matched
//! with its entries, and the four moments of a tick.

use vstd::prelude::*;
use vstd::string::*;
use crate::buttons::{
    pressed, spec_pressed, IN_ATTACK, IN_ATTACK2, IN_BACK, IN_DUCK, IN_FORWARD, IN_JUMP,
    IN_MOVELEFT, IN_MOVERIGHT, IN_RELOAD, IN_USE,
};
use crate::key::{Key, Keys, Multiplier};
use crate::movement::{
    resolve_axis, spec_resolve_axis, Axis, AxisOutcome, Sign, SpeedRequest, SpeedVariable,
};
use crate::script::{
    all_resolved, lemma_pending_count, lemma_pending_count_unique, pending_at_end, pending_count,
    views, ActionKeys, FrameBulk, FrameBulkView, MovementKeys, Script, ScriptView,
};
use crate::text::{join, join_commands, make_set_command, set_command, texts};

verus! {

/// What the engine tells about one command. The speeds along the two axes
/// are given by their signs, the view angles by their bit patterns.
#[derive(Clone, Copy, Debug, PartialEq, Eq, Structural)]
pub struct Command {
    /// The button bits.
    pub buttons: u16,
    /// The simulated time that the command takes, in milliseconds.
    pub msec: u8,
    /// The sign of the speed forward.
    pub forward: Sign,
    /// The sign of the speed to the right.
    pub side: Sign,
    /// The yaw of the view.
    pub yaw: u32,
    /// The pitch of the view.
    pub pitch: u32,
}

/// The speeds that the entry for a command sets, one for each axis.
#[derive(Clone, Copy, Debug, PartialEq, Eq, Structural)]
pub struct SpeedRequests {
    pub forward: Option<SpeedRequest>,
    pub side: Option<SpeedRequest>,
}

/// Whether the values that wait are enough for the entries that wait.
#[derive(Clone, Copy, Debug, PartialEq, Eq, Structural)]
pub enum ReconcileCheck {
    /// Each pending entry has its frame time and its remainder.
    Ready,
    /// The frame times run out first.
    MissingFrameTime,
    /// The remainders run out first.
    MissingRemainder,
}

/// The state of a recording.
#[derive(Debug)]
pub struct Recorder {
    lines: Vec<FrameBulk>,
    filename: String,
    pending_frame_times: Vec<String>,
    pending_remainders: Vec<String>,
    keys: Keys,
    last_cmd_was_zero_ms: bool,
}

/// The state of a recording, with its texts as sequences of characters.
pub struct RecorderView {
    /// The script so far.
    pub lines: Seq<FrameBulkView>,
    /// Where the script goes in the end.
    pub filename: Seq<char>,
    /// The frame times that wait for an entry, newest last.
    pub pending_frame_times: Seq<Seq<char>>,
    /// The timing remainders that wait for an entry, newest last.
    pub pending_remainders: Seq<Seq<char>>,
    /// The automatons of the movement keys.
    pub keys: Keys,
    /// Whether the last command that got an entry took no simulated time.
    pub last_cmd_was_zero_ms: bool,
}

/// The commands that set the speeds of an entry, the forward axis first.
pub open spec fn speed_commands(
    requests: SpeedRequests,
    forward_speed: Seq<char>,
    side_speed: Seq<char>,
) -> Seq<Seq<char>> {
    let forward = match requests.forward {
        Some(request) => seq![set_command(request.variable.spec_name(), forward_speed)],
        None => seq![],
    };
    let side = match requests.side {
        Some(request) => seq![set_command(request.variable.spec_name(), side_speed)],
        None => seq![],
    };
    forward + side
}

/// The entry for a command, given what the two axes give to it and the texts
/// of the speeds that it sets. It is pending, stands for one frame, holds
/// the action keys of the command's buttons and sets the view of the command.
pub open spec fn entry_of(
    cmd: Command,
    forward: AxisOutcome,
    side: AxisOutcome,
    forward_speed: Seq<char>,
    side_speed: Seq<char>,
) -> FrameBulkView {
    FrameBulkView {
        movement_keys: MovementKeys {
            forward: forward.positive_held,
            back: forward.negative_held,
            right: side.positive_held,
            left: side.negative_held,
        },
        action_keys: ActionKeys {
            jump: spec_pressed(cmd.buttons, IN_JUMP),
            duck: spec_pressed(cmd.buttons, IN_DUCK),
            use_: spec_pressed(cmd.buttons, IN_USE),
            attack_1: spec_pressed(cmd.buttons, IN_ATTACK),
            attack_2: spec_pressed(cmd.buttons, IN_ATTACK2),
            reload: spec_pressed(cmd.buttons, IN_RELOAD),
        },
        frame_time: None,
        yaw: cmd.yaw,
        pitch: cmd.pitch,
        frame_count: 1,
        console_command: join(
            speed_commands(
                SpeedRequests { forward: forward.speed, side: side.speed },
                forward_speed,
                side_speed,
            ),
        ),
    }
}

/// The automatons after an entry is built: each axis has had its say, and
/// the impulses are cleared.
pub open spec fn keys_of(forward: AxisOutcome, side: AxisOutcome) -> Keys {
    Keys {
        forward: forward.positive_key,
        back: forward.negative_key,
        right: side.positive_key,
        left: side.negative_key,
    }.spec_clear_impulses()
}

impl RecorderView {
    /// A recording that has just begun.
    pub open spec fn new(filename: Seq<char>) -> RecorderView {
        RecorderView {
            lines: seq![],
            filename,
            pending_frame_times: seq![],
            pending_remainders: seq![],
            keys: Keys {
                forward: Key::Released,
                back: Key::Released,
                left: Key::Released,
                right: Key::Released,
            },
            last_cmd_was_zero_ms: false,
        }
    }

    /// The recording after an input poll.
    pub open spec fn push_remainder(self, remainder: Seq<char>) -> RecorderView {
        RecorderView { pending_remainders: self.pending_remainders.push(remainder), ..self }
    }

    /// The recording after the start of a physics frame.
    pub open spec fn push_frame_time(self, frame_time: Seq<char>) -> RecorderView {
        RecorderView { pending_frame_times: self.pending_frame_times.push(frame_time), ..self }
    }

    /// Whether a command goes on with a split command that has its entry
    /// already: the last entry is pending, the command takes simulated time,
    /// and the command before it did too.
    pub open spec fn continues_split(self, cmd: Command) -> bool {
        &&& self.lines.len() > 0
        &&& self.lines.last().pending()
        &&& cmd.msec != 0
        &&& !self.last_cmd_was_zero_ms
    }

    /// Whether a command gets an entry.
    pub open spec fn builds(self, cmd: Command, paused: bool) -> bool {
        !self.continues_split(cmd) && !paused
    }

    /// What the forward axis gives to the entry for a command.
    pub open spec fn forward_axis(self, cmd: Command) -> AxisOutcome {
        spec_resolve_axis(
            Axis::Forward,
            cmd.forward,
            spec_pressed(cmd.buttons, IN_FORWARD),
            spec_pressed(cmd.buttons, IN_BACK),
            self.keys.forward,
            self.keys.back,
        )
    }

    /// What the side axis gives to the entry for a command.
    pub open spec fn side_axis(self, cmd: Command) -> AxisOutcome {
        spec_resolve_axis(
            Axis::Side,
            cmd.side,
            spec_pressed(cmd.buttons, IN_MOVERIGHT),
            spec_pressed(cmd.buttons, IN_MOVELEFT),
            self.keys.right,
            self.keys.left,
        )
    }

    /// The speeds that the entry for a command sets; none where the command
    /// gets no entry.
    pub open spec fn speed_requests(self, cmd: Command, paused: bool) -> SpeedRequests {
        if self.builds(cmd, paused) {
            SpeedRequests { forward: self.forward_axis(cmd).speed, side: self.side_axis(cmd).speed }
        } else {
            SpeedRequests { forward: None, side: None }
        }
    }

    /// The entry for a command, given the texts of the speeds that it sets.
    pub open spec fn entry(
        self,
        cmd: Command,
        forward_speed: Seq<char>,
        side_speed: Seq<char>,
    ) -> FrameBulkView {
        entry_of(cmd, self.forward_axis(cmd), self.side_axis(cmd), forward_speed, side_speed)
    }

    /// The automatons after the entry for a command is built.
    pub open spec fn keys_after(self, cmd: Command) -> Keys {
        keys_of(self.forward_axis(cmd), self.side_axis(cmd))
    }

    /// The recording after the start of a command. A command that goes on
    /// with a split command, or that comes while the game is paused, changes
    /// nothing. Any other gets a pending entry at the end of the script.
    pub open spec fn command_start(
        self,
        cmd: Command,
        paused: bool,
        forward_speed: Seq<char>,
        side_speed: Seq<char>,
    ) -> RecorderView {
        if self.builds(cmd, paused) {
            RecorderView {
                lines: self.lines.push(self.entry(cmd, forward_speed, side_speed)),
                keys: self.keys_after(cmd),
                last_cmd_was_zero_ms: cmd.msec == 0,
                ..self
            }
        } else {
            self
        }
    }

    /// What holds of every recording: the entries that wait for their
    /// duration are the last ones of the script, each entry stands for one
    /// frame, and between two commands no key holds an impulse.
    pub open spec fn wf(self) -> bool {
        &&& pending_at_end(self.lines)
        &&& forall|i: int| 0 <= i < self.lines.len() ==> (#[trigger] self.lines[i]).frame_count == 1
        &&& self.keys.settled()
    }

    /// Whether the frame times and the remainders that wait are enough for
    /// the entries that wait.
    pub open spec fn reconcilable(self) -> bool {
        &&& pending_count(self.lines) <= self.pending_frame_times.len()
        &&& pending_count(self.lines) <= self.pending_remainders.len()
    }

    /// Whether the frame times and the remainders that wait are enough, and
    /// if not, which of them is missed first on the way back from the newest
    /// entry: each entry takes its frame time before its remainder.
    pub open spec fn reconcile_check(self) -> ReconcileCheck {
        if self.reconcilable() {
            ReconcileCheck::Ready
        } else if self.pending_frame_times.len() <= self.pending_remainders.len() {
            ReconcileCheck::MissingFrameTime
        } else {
            ReconcileCheck::MissingRemainder
        }
    }

    /// The script after the end of a physics frame. The pending entries at
    /// its end are resolved, the newest with the newest frame time and the
    /// newest remainder, the one before it with those before, and so on. The
    /// other entries stay.
    pub open spec fn reconciled_lines(self) -> Seq<FrameBulkView> {
        let n = self.lines.len() as int;
        let first = n - pending_count(self.lines);
        let frame_times = self.pending_frame_times;
        let remainders = self.pending_remainders;
        Seq::new(
            self.lines.len(),
            |i: int|
                if i < first {
                    self.lines[i]
                } else {
                    self.lines[i].resolve(
                        frame_times[frame_times.len() - n + i],
                        remainders[remainders.len() - n + i],
                    )
                },
        )
    }

    /// The recording after the end of a physics frame. If an entry was
    /// resolved, the frame times and remainders that are left are dropped.
    pub open spec fn reconcile(self) -> RecorderView {
        if pending_count(self.lines) > 0 {
            RecorderView {
                lines: self.reconciled_lines(),
                pending_frame_times: seq![],
                pending_remainders: seq![],
                ..self
            }
        } else {
            self
        }
    }
}

/// A recording that has just begun is well formed.
pub proof fn lemma_new_wf(filename: Seq<char>)
    ensures
        RecorderView::new(filename).wf(),
{
}

/// The start of a command keeps a recording well formed. Where it builds an
/// entry, one more entry waits for its duration; where not, nothing changes.
pub proof fn lemma_command_start_wf(
    recorder: RecorderView,
    cmd: Command,
    paused: bool,
    forward_speed: Seq<char>,
    side_speed: Seq<char>,
)
    requires
        recorder.wf(),
    ensures
        recorder.command_start(cmd, paused, forward_speed, side_speed).wf(),
        pending_count(recorder.command_start(cmd, paused, forward_speed, side_speed).lines)
            == pending_count(recorder.lines) + if recorder.builds(cmd, paused) {
            1nat
        } else {
            0nat
        },
{
    if recorder.builds(cmd, paused) {
        let after = recorder.command_start(cmd, paused, forward_speed, side_speed);
        assert(after.lines.drop_last() =~= recorder.lines);
        assert(after.lines.last().pending());
        assert forall|i: int| 0 <= i < after.lines.len() - pending_count(after.lines) implies !(
        #[trigger] after.lines[i]).pending() by {
            assert(after.lines[i] == recorder.lines[i]);
        }
        assert forall|i: int| 0 <= i < after.lines.len() implies (#[trigger] after.lines[i]).frame_count
            == 1 by {
            if i < recorder.lines.len() {
                assert(after.lines[i] == recorder.lines[i]);
            }
        }
    }
}

/// The end of a physics frame leaves no entry pending in a well-formed
/// recording and keeps it well formed. The script keeps its length, and the
/// entries before the pending ones stay as they are. If an entry was
/// pending, no frame time and no remainder is left; if none was, nothing
/// changes at all.
pub proof fn lemma_reconcile_wf(recorder: RecorderView)
    requires
        recorder.wf(),
    ensures
        recorder.reconcile().wf(),
        all_resolved(recorder.reconcile().lines),
        pending_count(recorder.reconcile().lines) == 0,
        recorder.reconcile().lines.len() == recorder.lines.len(),
        forall|i: int|
            0 <= i < recorder.lines.len() - pending_count(recorder.lines) ==> (
            #[trigger] recorder.reconcile().lines[i]) == recorder.lines[i],
        pending_count(recorder.lines) > 0 ==> recorder.reconcile().pending_frame_times.len() == 0
            && recorder.reconcile().pending_remainders.len() == 0,
        pending_count(recorder.lines) == 0 ==> recorder.reconcile() == recorder,
{
    lemma_pending_count(recorder.lines);
    let after = recorder.reconcile();
    assert forall|i: int| 0 <= i < after.lines.len() implies !(#[trigger] after.lines[i]).pending() by {
        if pending_count(recorder.lines) == 0 {
            assert(!recorder.lines[i].pending());
        } else if i < recorder.lines.len() - pending_count(recorder.lines) {
            assert(!recorder.lines[i].pending());
        }
    }
    lemma_pending_count_unique(after.lines, 0);
    assert forall|i: int| 0 <= i < after.lines.len() implies (#[trigger] after.lines[i]).frame_count
        == 1 by {
        assert(recorder.lines[i].frame_count == 1);
    }
}

/// The command line of the entry for a command holds the speeds that
/// `speed_requests` asks for and nothing else: the forward axis first, each
/// as the name of its variable, a space and the text of its value.
pub proof fn lemma_entry_commands(
    recorder: RecorderView,
    cmd: Command,
    paused: bool,
    forward_speed: Seq<char>,
    side_speed: Seq<char>,
)
    requires
        recorder.builds(cmd, paused),
    ensures
        recorder.command_start(cmd, paused, forward_speed, side_speed).lines.len()
            == recorder.lines.len() + 1,
        recorder.command_start(cmd, paused, forward_speed, side_speed).lines.last()
            == recorder.entry(cmd, forward_speed, side_speed),
        recorder.entry(cmd, forward_speed, side_speed).console_command == join(
            speed_commands(recorder.speed_requests(cmd, paused), forward_speed, side_speed),
        ),
        recorder.speed_requests(cmd, paused).forward matches Some(request) ==> request.variable
            != SpeedVariable::Side,
        recorder.speed_requests(cmd, paused).side matches Some(request) ==> request.variable
            == SpeedVariable::Side,
{
}

/// With the buttons for forward and back both down and a speed forward
/// above zero, the entry holds forward and not back, the automaton of the
/// back key is released afterwards, and the one speed that the forward axis
/// sets is the forward speed: no command sets the back speed.
pub proof fn lemma_forward_beats_back(
    recorder: RecorderView,
    cmd: Command,
    paused: bool,
    forward_speed: Seq<char>,
    side_speed: Seq<char>,
)
    requires
        recorder.builds(cmd, paused),
        spec_pressed(cmd.buttons, IN_FORWARD),
        spec_pressed(cmd.buttons, IN_BACK),
        cmd.forward is Positive,
    ensures
        ({
            let after = recorder.command_start(cmd, paused, forward_speed, side_speed);
            let requests = recorder.speed_requests(cmd, paused);
            &&& after.lines.last().movement_keys.forward
            &&& !after.lines.last().movement_keys.back
            &&& after.keys.forward == Key::Held
            &&& after.keys.back == Key::Released
            &&& requests.forward == Some(
                SpeedRequest {
                    variable: SpeedVariable::Forward,
                    negated: false,
                    multiplier: recorder.keys.forward.spec_update(true).spec_multiplier(),
                },
            )
            &&& requests.side matches Some(request) ==> request.variable != SpeedVariable::Back
            &&& speed_commands(requests, forward_speed, side_speed)[0] == set_command(
                "cl_forwardspeed"@,
                forward_speed,
            )
            &&& after.lines.last().console_command == join(
                speed_commands(requests, forward_speed, side_speed),
            )
        }),
{
}

/// With the buttons for forward and back both down and a speed forward that
/// is not above zero, back wins in the same way: the entry holds back and
/// not forward, the automaton of the forward key is released afterwards, and
/// the forward axis sets the back speed, negated.
pub proof fn lemma_back_beats_forward(
    recorder: RecorderView,
    cmd: Command,
    paused: bool,
    forward_speed: Seq<char>,
    side_speed: Seq<char>,
)
    requires
        recorder.builds(cmd, paused),
        spec_pressed(cmd.buttons, IN_FORWARD),
        spec_pressed(cmd.buttons, IN_BACK),
        !(cmd.forward is Positive),
    ensures
        ({
            let after = recorder.command_start(cmd, paused, forward_speed, side_speed);
            let requests = recorder.speed_requests(cmd, paused);
            &&& !after.lines.last().movement_keys.forward
            &&& after.lines.last().movement_keys.back
            &&& after.keys.forward == Key::Released
            &&& after.keys.back == Key::Held
            &&& requests.forward == Some(
                SpeedRequest {
                    variable: SpeedVariable::Back,
                    negated: true,
                    multiplier: recorder.keys.back.spec_update(true).spec_multiplier(),
                },
            )
            &&& speed_commands(requests, forward_speed, side_speed)[0] == set_command(
                "cl_backspeed"@,
                forward_speed,
            )
        }),
{
}

/// A forward key that is held from one command to the next, with the back
/// button up, gives the full multiplier in both commands, whatever else
/// the two commands hold.
pub proof fn lemma_held_forward_key(
    recorder: RecorderView,
    first: Command,
    forward_speed: Seq<char>,
    side_speed: Seq<char>,
    second: Command,
)
    requires
        recorder.keys.forward == Key::Held,
        recorder.builds(first, false),
        spec_pressed(first.buttons, IN_FORWARD),
        !spec_pressed(first.buttons, IN_BACK),
        spec_pressed(second.buttons, IN_FORWARD),
        !spec_pressed(second.buttons, IN_BACK),
    ensures
        ({
            let after = recorder.command_start(first, false, forward_speed, side_speed);
            &&& recorder.forward_axis(first).speed == Some(
                SpeedRequest {
                    variable: SpeedVariable::Forward,
                    negated: false,
                    multiplier: Multiplier::Full,
                },
            )
            &&& after.keys.forward == Key::Held
            &&& after.forward_axis(second).speed == Some(
                SpeedRequest {
                    variable: SpeedVariable::Forward,
                    negated: false,
                    multiplier: Multiplier::Full,
                },
            )
        }),
{
}

impl View for Recorder {
    type V = RecorderView;

    closed spec fn view(&self) -> RecorderView {
        RecorderView {
            lines: views(self.lines@),
            filename: self.filename@,
            pending_frame_times: texts(self.pending_frame_times@),
            pending_remainders: texts(self.pending_remainders@),
            keys: self.keys,
            last_cmd_was_zero_ms: self.last_cmd_was_zero_ms,
        }
    }
}

impl Recorder {
    /// Begins a recording that is to go to `filename`.
    pub fn new(filename: String) -> (recorder: Recorder)
        ensures
            recorder@ == RecorderView::new(filename@),
            recorder@.wf(),
    {
        let recorder = Recorder {
            lines: Vec::new(),
            filename,
            pending_frame_times: Vec::new(),
            pending_remainders: Vec::new(),
            keys: Keys::default(),
            last_cmd_was_zero_ms: false,
        };
        assert(recorder@.lines =~= seq![]);
        assert(recorder@.pending_frame_times =~= seq![]);
        assert(recorder@.pending_remainders =~= seq![]);
        recorder
    }

    /// The script so far.
    pub fn lines(&self) -> (lines: &Vec<FrameBulk>)
        ensures
            views(lines@) == self@.lines,
    {
        &self.lines
    }

    /// The name of the file that the script is to go to.
    pub fn filename(&self) -> (filename: &String)
        ensures
            filename@ == self@.filename,
    {
        &self.filename
    }

    /// The frame times that wait for an entry, newest last.
    pub fn pending_frame_times(&self) -> (frame_times: &Vec<String>)
        ensures
            texts(frame_times@) == self@.pending_frame_times,
    {
        &self.pending_frame_times
    }

    /// The timing remainders that wait for an entry, newest last.
    pub fn pending_remainders(&self) -> (remainders: &Vec<String>)
        ensures
            texts(remainders@) == self@.pending_remainders,
    {
        &self.pending_remainders
    }

    /// The automatons of the movement keys.
    pub fn keys(&self) -> (keys: Keys)
        ensures
            keys == self@.keys,
    {
        self.keys
    }

    /// Whether the last command that got an entry took no simulated time.
    pub fn last_cmd_was_zero_ms(&self) -> (zero: bool)
        ensures
            zero == self@.last_cmd_was_zero_ms,
    {
        self.last_cmd_was_zero_ms
    }

    /// Ends the recording: gives up the script and the name of its file.
    pub fn finish(self) -> (script: Script)
        ensures
            script@ == (ScriptView { filename: self@.filename, lines: self@.lines }),
    {
        Script { filename: self.filename, lines: self.lines }
    }

    /// The input poll: the timing remainder of the moment waits for an entry.
    pub fn on_cl_move(&mut self, remainder: String)
        ensures
            final(self)@ == old(self)@.push_remainder(remainder@),
            old(self)@.wf() ==> final(self)@.wf(),
    {
        self.pending_remainders.push(remainder);
        assert(texts(self.pending_remainders@) =~= texts(old(self).pending_remainders@).push(
            remainder@,
        ));
    }

    /// The start of a physics frame: its duration waits for an entry.
    pub fn on_sv_frame_start(&mut self, frame_time: String)
        ensures
            final(self)@ == old(self)@.push_frame_time(frame_time@),
            old(self)@.wf() ==> final(self)@.wf(),
    {
        self.pending_frame_times.push(frame_time);
        assert(texts(self.pending_frame_times@) =~= texts(old(self).pending_frame_times@).push(
            frame_time@,
        ));
    }

    /// Whether a command goes on with a split command that has its entry
    /// already.
    pub fn continues_split(&self, cmd: &Command) -> (skip: bool)
        ensures
            skip == self@.continues_split(*cmd),
    {
        let n: usize = self.lines.len();
        n > 0 && self.lines[n - 1].is_pending() && cmd.msec != 0 && !self.last_cmd_was_zero_ms
    }

    /// What the forward axis gives to the entry for a command.
    fn forward_axis(&self, cmd: &Command) -> (outcome: AxisOutcome)
        ensures
            outcome == self@.forward_axis(*cmd),
    {
        resolve_axis(
            Axis::Forward,
            cmd.forward,
            pressed(cmd.buttons, IN_FORWARD),
            pressed(cmd.buttons, IN_BACK),
            self.keys.forward,
            self.keys.back,
        )
    }

    /// What the side axis gives to the entry for a command.
    fn side_axis(&self, cmd: &Command) -> (outcome: AxisOutcome)
        ensures
            outcome == self@.side_axis(*cmd),
    {
        resolve_axis(
            Axis::Side,
            cmd.side,
            pressed(cmd.buttons, IN_MOVERIGHT),
            pressed(cmd.buttons, IN_MOVELEFT),
            self.keys.right,
            self.keys.left,
        )
    }

    /// The speeds that the entry for a command sets. The caller turns each
    /// into the text of its value and hands the texts to `on_cmd_start`.
    pub fn speed_requests(&self, cmd: &Command, paused: bool) -> (requests: SpeedRequests)
        ensures
            requests == self@.speed_requests(*cmd, paused),
    {
        if self.continues_split(cmd) || paused {
            return SpeedRequests { forward: None, side: None };
        }
        let forward = self.forward_axis(cmd);
        let side = self.side_axis(cmd);
        SpeedRequests { forward: forward.speed, side: side.speed }
    }

    /// The start of a command. `forward_speed` and `side_speed` are the texts
    /// of the values that `speed_requests` asks for; one that is not asked
    /// for is not read.
    pub fn on_cmd_start(&mut self, cmd: &Command, paused: bool, forward_speed: &str, side_speed: &str)
        ensures
            final(self)@ == old(self)@.command_start(*cmd, paused, forward_speed@, side_speed@),
            old(self)@.wf() ==> final(self)@.wf(),
    {
        proof {
            if self@.wf() {
                lemma_command_start_wf(self@, *cmd, paused, forward_speed@, side_speed@);
            }
        }
        if self.continues_split(cmd) {
            return;
        }
        if paused {
            return;
        }
        self.last_cmd_was_zero_ms = cmd.msec == 0;

        let forward = self.forward_axis(cmd);
        let side = self.side_axis(cmd);
        let frame_bulk = build_entry(cmd, &forward, &side, forward_speed, side_speed);
        let ghost entry = frame_bulk@;
        self.lines.push(frame_bulk);
        assert(views(self.lines@) =~= views(old(self).lines@).push(entry));

        self.keys = Keys {
            forward: forward.positive_key,
            back: forward.negative_key,
            right: side.positive_key,
            left: side.negative_key,
        };
        self.keys.clear_impulses();
    }

    /// Whether the frame times and the remainders that wait are enough for
    /// the pending entries at the end of the script, and if not, which of
    /// the two runs out first on the way back from the newest entry.
    pub fn reconcile_check(&self) -> (check: ReconcileCheck)
        ensures
            check == self@.reconcile_check(),
    {
        let n: usize = self.lines.len();
        let mut i: usize = n;
        proof {
            lemma_pending_count(self@.lines);
        }
        while i > 0 && self.lines[i - 1].is_pending()
            invariant
                n == self.lines.len(),
                n - pending_count(self@.lines) <= i <= n,
                pending_count(self@.lines) < n ==> !self@.lines[n - pending_count(self@.lines)
                    - 1].pending(),
            decreases i,
        {
            i -= 1;
        }
        proof {
            if i > n - pending_count(self@.lines) {
                assert(self@.lines[i - 1].pending());
            }
        }
        let pending: usize = n - i;
        assert(texts(self.pending_frame_times@).len() == self.pending_frame_times@.len());
        assert(texts(self.pending_remainders@).len() == self.pending_remainders@.len());
        if self.pending_frame_times.len() >= pending && self.pending_remainders.len() >= pending {
            ReconcileCheck::Ready
        } else if self.pending_frame_times.len() <= self.pending_remainders.len() {
            ReconcileCheck::MissingFrameTime
        } else {
            ReconcileCheck::MissingRemainder
        }
    }

    /// The end of a physics frame: the pending entries at the end of the
    /// script get their durations and remainders, the newest entry the newest
    /// of each. If an entry was resolved, what is left of the frame times and
    /// the remainders is dropped.
    pub fn on_sv_frame_end(&mut self)
        requires
            old(self)@.reconcilable(),
        ensures
            final(self)@ == old(self)@.reconcile(),
            old(self)@.wf() ==> final(self)@.wf() && all_resolved(final(self)@.lines),
    {
        proof {
            if self@.wf() {
                lemma_reconcile_wf(self@);
            }
        }
        let ghost before = self@;
        let ghost count = pending_count(before.lines);
        let n: usize = self.lines.len();
        let mut i: usize = n;
        proof {
            lemma_pending_count(before.lines);
        }
        while i > 0 && self.lines[i - 1].is_pending()
            invariant
                before.reconcilable(),
                count == pending_count(before.lines),
                count <= n,
                n == before.lines.len(),
                n == self.lines.len(),
                n - count <= i <= n,
                count < n ==> !before.lines[n - count - 1].pending(),
                self.filename == old(self).filename,
                self.keys == old(self).keys,
                self.last_cmd_was_zero_ms == old(self).last_cmd_was_zero_ms,
                texts(self.pending_frame_times@) == before.pending_frame_times.take(
                    before.pending_frame_times.len() - (n - i),
                ),
                texts(self.pending_remainders@) == before.pending_remainders.take(
                    before.pending_remainders.len() - (n - i),
                ),
                forall|j: int| 0 <= j < i ==> (#[trigger] self.lines@[j])@ == before.lines[j],
                forall|j: int|
                    i <= j < n ==> (#[trigger] self.lines@[j])@ == before.reconciled_lines()[j],
            decreases i,
        {
            assert(self.lines@[i - 1]@ == before.lines[i - 1]);
            assert(i > n - count);
            i -= 1;
            let ghost frame_times = self.pending_frame_times@;
            let ghost remainders = self.pending_remainders@;
            assert(frame_times.len() == texts(frame_times).len());
            assert(remainders.len() == texts(remainders).len());
            let frame_time = self.pending_frame_times.pop().unwrap();
            let remainder = self.pending_remainders.pop().unwrap();
            assert(texts(self.pending_frame_times@) =~= texts(frame_times).drop_last());
            assert(texts(self.pending_remainders@) =~= texts(remainders).drop_last());
            assert(frame_time@ == texts(frame_times).last());
            assert(remainder@ == texts(remainders).last());
            let ghost lines = self.lines@;
            self.lines[i].resolve(frame_time, remainder.as_str());
            assert forall|j: int| 0 <= j < i implies (#[trigger] self.lines@[j])@
                == before.lines[j] by {
                assert(self.lines@[j] == lines[j]);
            }
            assert forall|j: int| i <= j < n implies (#[trigger] self.lines@[j])@
                == before.reconciled_lines()[j] by {
                if j > i {
                    assert(self.lines@[j] == lines[j]);
                }
            }
        }
        proof {
            if i > n - count {
                assert(self.lines@[i - 1]@ == before.lines[i - 1]);
            }
        }
        if i < n {
            self.pending_frame_times.clear();
            self.pending_remainders.clear();
            assert(texts(self.pending_frame_times@) =~= seq![]);
            assert(texts(self.pending_remainders@) =~= seq![]);
            assert(views(self.lines@) =~= before.reconciled_lines());
        } else {
            assert(texts(self.pending_frame_times@) =~= before.pending_frame_times);
            assert(texts(self.pending_remainders@) =~= before.pending_remainders);
            assert(views(self.lines@) =~= before.lines);
        }
    }
}

/// The commands that set the speeds of an entry.
fn build_speed_commands(requests: &SpeedRequests, forward_speed: &str, side_speed: &str) -> (commands:
    Vec<String>)
    ensures
        texts(commands@) == speed_commands(*requests, forward_speed@, side_speed@),
{
    let mut commands: Vec<String> = Vec::new();
    if let Some(request) = requests.forward {
        commands.push(make_set_command(request.variable.name(), forward_speed));
    }
    if let Some(request) = requests.side {
        commands.push(make_set_command(request.variable.name(), side_speed));
    }
    assert(texts(commands@) =~= speed_commands(*requests, forward_speed@, side_speed@));
    commands
}

/// Builds the entry for a command from what the two axes give to it.
fn build_entry(
    cmd: &Command,
    forward: &AxisOutcome,
    side: &AxisOutcome,
    forward_speed: &str,
    side_speed: &str,
) -> (frame_bulk: FrameBulk)
    ensures
        frame_bulk@ == entry_of(*cmd, *forward, *side, forward_speed@, side_speed@),
{
    let requests = SpeedRequests { forward: forward.speed, side: side.speed };
    let commands = build_speed_commands(&requests, forward_speed, side_speed);
    FrameBulk {
        movement_keys: MovementKeys {
            forward: forward.positive_held,
            back: forward.negative_held,
            right: side.positive_held,
            left: side.negative_held,
        },
        action_keys: ActionKeys {
            jump: pressed(cmd.buttons, IN_JUMP),
            duck: pressed(cmd.buttons, IN_DUCK),
            use_: pressed(cmd.buttons, IN_USE),
            attack_1: pressed(cmd.buttons, IN_ATTACK),
            attack_2: pressed(cmd.buttons, IN_ATTACK2),
            reload: pressed(cmd.buttons, IN_RELOAD),
        },
        frame_time: None,
        yaw: cmd.yaw,
        pitch: cmd.pitch,
        frame_count: 1,
        console_command: join_commands(&commands),
    }
}

} // verus!
