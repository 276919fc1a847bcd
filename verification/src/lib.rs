//! Recording of live gameplay into a replayable movement script.
//!
//! The engine reports four moments of every tick: the input poll, the start
//! of a physics frame, the start of a command and the end of the physics
//! frame. A command becomes a script entry whose duration is not known yet;
//! the end of the physics frame gives the entries that wait their durations,
//! the newest entry the newest one.
//!
//! Nothing here computes with fractions. A duration or a timing remainder
//! comes in as decimal text, a view angle as the bit pattern of the engine's
//! number, and a speed as its sign. Where an entry sets a speed,
//! `speed_requests` says which value is wanted, the caller works it out, and
//! `on_cmd_start` takes its text.
//!
//! - `key`: the automaton of one movement key and its multiplier.
//! - `buttons`: the button bits of a command.
//! - `movement`: which key of an axis an entry holds and which speed it sets.
//! - `text`: the text of console commands.
//! - `script`: script entries and the run of pending entries at the end.
//! - `recorder`: the recording and what each moment of a tick does to it.
//! - `session`: idle or recording, and the console commands between them.
//! - `trace`: runs of events and what holds of all of them.

pub mod buttons;
pub mod key;
pub mod movement;
pub mod recorder;
pub mod script;
pub mod session;
pub mod text;
pub mod trace;
