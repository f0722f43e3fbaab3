//! Decoding the command line's first tokens into one of the tool's
//! subcommands.

use vstd::prelude::*;
use vstd::string::StringExecFns;

verus! {

/// One of the tool's subcommands, as decoded from the command line.
pub enum Command {
    /// No subcommand was given: show the help text.
    Help,
    /// Open today's entry in the given editor.
    Write { editor: String },
    /// Stage, commit and push the journal.
    Save,
    /// Pull the journal from the remote.
    Sync,
    /// An unrecognized token: do nothing.
    Unknown,
}

/// The editor a `write` command uses: the second token when one was
/// given, the fallback editor otherwise.
pub open spec fn spec_editor_choice(second: Option<String>) -> Seq<char> {
    match second {
        Some(e) => e@,
        None => "vi"@,
    }
}

/// The decoded command matches the tokens: no token asks for help, the
/// three known tokens select their subcommand (`write` taking the next
/// token as the editor), and any other token is ignored.
pub open spec fn spec_parsed(first: Option<String>, second: Option<String>, c: Command) -> bool {
    match first {
        None => c is Help,
        Some(t) => {
            &&& t@ == "write"@ ==> (c matches Command::Write { editor } && editor@
                == spec_editor_choice(second))
            &&& t@ != "write"@ && t@ == "save"@ ==> c is Save
            &&& t@ != "write"@ && t@ != "save"@ && t@ == "sync"@ ==> c is Sync
            &&& t@ != "write"@ && t@ != "save"@ && t@ != "sync"@ ==> c is Unknown
        },
    }
}

pub fn parse_command(first: Option<String>, second: Option<String>) -> (c: Command)
    ensures
        spec_parsed(first, second, c),
{
    match first {
        None => Command::Help,
        Some(t) => {
            if t == String::from_str("write") {
                let editor = match second {
                    Some(e) => e,
                    None => String::from_str("vi"),
                };
                Command::Write { editor }
            } else if t == String::from_str("save") {
                Command::Save
            } else if t == String::from_str("sync") {
                Command::Sync
            } else {
                Command::Unknown
            }
        },
    }
}

} // verus!
