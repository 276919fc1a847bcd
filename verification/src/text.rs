//! The text of console commands.

use vstd::prelude::*;
use vstd::string::*;

verus! {

/// The texts of a list of strings.
pub open spec fn texts(parts: Seq<String>) -> Seq<Seq<char>> {
    parts.map_values(|part: String| part@)
}

/// The parts in order, with a semicolon between neighbours.
pub open spec fn join(parts: Seq<Seq<char>>) -> Seq<char>
    decreases parts.len(),
{
    if parts.len() == 0 {
        Seq::empty()
    } else if parts.len() == 1 {
        parts[0]
    } else {
        join(parts.drop_last()) + ";"@ + parts.last()
    }
}

/// A command line with one more command at its end.
pub open spec fn append_command(line: Seq<char>, command: Seq<char>) -> Seq<char> {
    if line.len() == 0 {
        command
    } else {
        line + ";"@ + command
    }
}

/// The command that sets a variable to a value.
pub open spec fn set_command(name: Seq<char>, value: Seq<char>) -> Seq<char> {
    name + " "@ + value
}

/// Joins the commands of one entry into its command line.
pub fn join_commands(parts: &Vec<String>) -> (line: String)
    ensures
        line@ == join(texts(parts@)),
{
    let mut line = String::new();
    let mut i: usize = 0;
    while i < parts.len()
        invariant
            i <= parts.len(),
            line@ == join(texts(parts@.take(i as int))),
        decreases parts.len() - i,
    {
        proof {
            let done = texts(parts@.take(i as int));
            let next = texts(parts@.take(i + 1));
            assert(next.drop_last() =~= done);
            assert(next.last() == parts@[i as int]@);
        }
        if i > 0 {
            line.append(";");
        }
        line.append(parts[i].as_str());
        i += 1;
    }
    proof {
        assert(parts@.take(i as int) =~= parts@);
    }
    line
}

/// Puts one more command at the end of a command line.
pub fn push_command(line: &mut String, command: &str)
    ensures
        final(line)@ == append_command(old(line)@, command@),
{
    if !line.as_str().is_empty() {
        line.append(";");
    }
    line.append(command);
}

/// Builds the command that sets a variable to a value.
pub fn make_set_command(name: &str, value: &str) -> (command: String)
    ensures
        command@ == set_command(name@, value@),
{
    let mut command = String::from_str(name);
    command.append(" ");
    command.append(value);
    command
}

} // verus!
