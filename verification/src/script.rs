//! The entries of a script and the run of entries that still wait for their
//! duration.

use vstd::prelude::*;
use vstd::string::*;
use crate::text::{append_command, make_set_command, push_command, set_command};

verus! {

/// The movement keys that an entry holds down.
#[derive(Clone, Copy, Debug, PartialEq, Eq, Structural)]
pub struct MovementKeys {
    pub forward: bool,
    pub left: bool,
    pub right: bool,
    pub back: bool,
}

/// The action keys that an entry holds down.
#[derive(Clone, Copy, Debug, PartialEq, Eq, Structural)]
pub struct ActionKeys {
    pub jump: bool,
    pub duck: bool,
    pub use_: bool,
    pub attack_1: bool,
    pub attack_2: bool,
    pub reload: bool,
}

/// One entry of the script: the keys held, how long, where the view points,
/// and the console commands to run.
///
/// The two angles are carried as the bit patterns of the engine's numbers.
#[derive(Clone, Debug)]
pub struct FrameBulk {
    pub movement_keys: MovementKeys,
    pub action_keys: ActionKeys,
    /// The duration as decimal text; `None` while it is not known yet.
    pub frame_time: Option<String>,
    /// The yaw that the entry sets.
    pub yaw: u32,
    /// The pitch that the entry sets.
    pub pitch: u32,
    /// How many frames the entry stands for.
    pub frame_count: u32,
    /// The console commands, separated by semicolons.
    pub console_command: String,
}

/// An entry with its texts as sequences of characters.
pub struct FrameBulkView {
    pub movement_keys: MovementKeys,
    pub action_keys: ActionKeys,
    pub frame_time: Option<Seq<char>>,
    pub yaw: u32,
    pub pitch: u32,
    pub frame_count: u32,
    pub console_command: Seq<char>,
}

impl View for FrameBulk {
    type V = FrameBulkView;

    open spec fn view(&self) -> FrameBulkView {
        FrameBulkView {
            movement_keys: self.movement_keys,
            action_keys: self.action_keys,
            frame_time: match self.frame_time {
                Some(text) => Some(text@),
                None => None,
            },
            yaw: self.yaw,
            pitch: self.pitch,
            frame_count: self.frame_count,
            console_command: self.console_command@,
        }
    }
}

impl FrameBulkView {
    /// Whether the entry still waits for its duration.
    pub open spec fn pending(self) -> bool {
        self.frame_time is None
    }

    /// The entry once its duration is known: it gets the duration, and the
    /// command that restores the timing remainder goes to the end of its
    /// command line.
    pub open spec fn resolve(self, frame_time: Seq<char>, remainder: Seq<char>) -> FrameBulkView {
        FrameBulkView {
            frame_time: Some(frame_time),
            console_command: append_command(self.console_command, remainder_command(remainder)),
            ..self
        }
    }
}

/// The command that restores a timing remainder.
pub open spec fn remainder_command(remainder: Seq<char>) -> Seq<char> {
    set_command("_bxt_set_frametime_remainder"@, remainder)
}

impl FrameBulk {
    /// Whether the entry still waits for its duration.
    pub fn is_pending(&self) -> (pending: bool)
        ensures
            pending == self@.pending(),
    {
        self.frame_time.is_none()
    }

    /// Gives the entry its duration and puts the command that restores the
    /// timing remainder at the end of its command line.
    pub fn resolve(&mut self, frame_time: String, remainder: &str)
        ensures
            final(self)@ == old(self)@.resolve(frame_time@, remainder@),
    {
        self.frame_time = Some(frame_time);
        let command = make_set_command("_bxt_set_frametime_remainder", remainder);
        push_command(&mut self.console_command, command.as_str());
    }
}

/// The entries of a list, each as its view.
pub open spec fn views(lines: Seq<FrameBulk>) -> Seq<FrameBulkView> {
    lines.map_values(|line: FrameBulk| line@)
}

/// A finished script and the file that it is to be written to.
#[derive(Debug)]
pub struct Script {
    pub filename: String,
    pub lines: Vec<FrameBulk>,
}

/// A finished script, with its texts as sequences of characters.
pub struct ScriptView {
    pub filename: Seq<char>,
    pub lines: Seq<FrameBulkView>,
}

impl View for Script {
    type V = ScriptView;

    open spec fn view(&self) -> ScriptView {
        ScriptView { filename: self.filename@, lines: views(self.lines@) }
    }
}

/// How many entries at the end of the script wait for their duration: the
/// length of the longest run of pending entries that ends the script.
pub open spec fn pending_count(lines: Seq<FrameBulkView>) -> nat
    decreases lines.len(),
{
    if lines.len() > 0 && lines.last().pending() {
        1 + pending_count(lines.drop_last())
    } else {
        0
    }
}

/// Whether every entry that waits for its duration belongs to the run at the
/// end of the script.
pub open spec fn pending_at_end(lines: Seq<FrameBulkView>) -> bool {
    forall|i: int| 0 <= i < lines.len() - pending_count(lines) ==> !(#[trigger] lines[i]).pending()
}

/// Whether no entry of the script waits for its duration.
pub open spec fn all_resolved(lines: Seq<FrameBulkView>) -> bool {
    forall|i: int| 0 <= i < lines.len() ==> !(#[trigger] lines[i]).pending()
}

/// The run at the end of the script is within the script, every entry in it
/// is pending, and the entry before it, if there is one, is not.
pub proof fn lemma_pending_count(lines: Seq<FrameBulkView>)
    ensures
        pending_count(lines) <= lines.len(),
        forall|i: int|
            lines.len() - pending_count(lines) <= i < lines.len() ==> (#[trigger] lines[i]).pending(),
        pending_count(lines) < lines.len() ==> !lines[lines.len() - pending_count(lines) - 1].pending(),
    decreases lines.len(),
{
    if lines.len() > 0 && lines.last().pending() {
        let front = lines.drop_last();
        lemma_pending_count(front);
        assert forall|i: int| lines.len() - pending_count(lines) <= i < lines.len() implies (
        #[trigger] lines[i]).pending() by {
            if i < front.len() {
                assert(front[i].pending());
            }
        }
    }
}

/// A run of pending entries at the end, with a resolved entry or nothing
/// before it, is the run that `pending_count` measures.
pub proof fn lemma_pending_count_unique(lines: Seq<FrameBulkView>, k: nat)
    requires
        k <= lines.len(),
        forall|i: int| lines.len() - k <= i < lines.len() ==> (#[trigger] lines[i]).pending(),
        k < lines.len() ==> !lines[lines.len() - k - 1].pending(),
    ensures
        pending_count(lines) == k,
    decreases lines.len(),
{
    if k > 0 {
        let front = lines.drop_last();
        assert forall|i: int| front.len() - (k - 1) <= i < front.len() implies (
        #[trigger] front[i]).pending() by {
            assert(lines[i].pending());
        }
        lemma_pending_count_unique(front, (k - 1) as nat);
    }
}

} // verus!
