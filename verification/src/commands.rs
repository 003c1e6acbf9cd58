//! The command palette (`:`): the commands, their labels, and which of
//! them a typed filter leaves.

use vstd::prelude::*;

use crate::text::{contains_chars, contains_seq, lowercase, to_lowercase_chars};

verus! {

/// A command of the palette.
#[derive(Clone, Copy, Debug, PartialEq, Eq, Structural)]
pub enum Command {
    Today,
    Backlog,
    Inbox,
    Review,
    Sync,
    SyncGithub,
    SyncLinear,
    CarryOver,
    Refresh,
    ToggleDone,
    ToggleDismissed,
    Help,
    Quit,
}

impl Command {
    pub open spec fn label_spec(self) -> Seq<char> {
        match self {
            Command::Today => "today"@,
            Command::Backlog => "backlog"@,
            Command::Inbox => "inbox"@,
            Command::Review => "review"@,
            Command::Sync => "sync"@,
            Command::SyncGithub => "sync github"@,
            Command::SyncLinear => "sync linear"@,
            Command::CarryOver => "carry over"@,
            Command::Refresh => "refresh"@,
            Command::ToggleDone => "toggle done"@,
            Command::ToggleDismissed => "toggle dismissed"@,
            Command::Help => "help"@,
            Command::Quit => "quit"@,
        }
    }

    /// The label shown in the palette.
    pub fn label(self) -> (r: &'static str)
        ensures
            r@ == self.label_spec(),
    {
        match self {
            Command::Today => "today",
            Command::Backlog => "backlog",
            Command::Inbox => "inbox",
            Command::Review => "review",
            Command::Sync => "sync",
            Command::SyncGithub => "sync github",
            Command::SyncLinear => "sync linear",
            Command::CarryOver => "carry over",
            Command::Refresh => "refresh",
            Command::ToggleDone => "toggle done",
            Command::ToggleDismissed => "toggle dismissed",
            Command::Help => "help",
            Command::Quit => "quit",
        }
    }
}

/// Every command, in palette order.
pub open spec fn all_commands() -> Seq<Command> {
    seq![
        Command::Today,
        Command::Backlog,
        Command::Inbox,
        Command::Review,
        Command::Sync,
        Command::SyncGithub,
        Command::SyncLinear,
        Command::CarryOver,
        Command::Refresh,
        Command::ToggleDone,
        Command::ToggleDismissed,
        Command::Help,
        Command::Quit,
    ]
}

/// A command is offered for a typed filter when the filter is empty or,
/// lower-cased, occurs in the lower-cased label.
pub open spec fn command_matches(c: Command, input: Seq<char>) -> bool {
    input.len() == 0 || contains_seq(lowercase(c.label_spec()), lowercase(input))
}

/// The commands offered for a typed filter, in palette order.
pub open spec fn commands_for(input: Seq<char>) -> Seq<Command> {
    all_commands().filter(|c: Command| command_matches(c, input))
}

/// The commands offered for a typed filter, in palette order.
pub fn filter_commands(input: &str) -> (r: Vec<Command>)
    ensures
        r@ == commands_for(input@),
{
    let all = [
        Command::Today,
        Command::Backlog,
        Command::Inbox,
        Command::Review,
        Command::Sync,
        Command::SyncGithub,
        Command::SyncLinear,
        Command::CarryOver,
        Command::Refresh,
        Command::ToggleDone,
        Command::ToggleDismissed,
        Command::Help,
        Command::Quit,
    ];
    assert(all@ =~= all_commands());
    let empty = input.is_empty();
    let needle = to_lowercase_chars(input);
    let ghost pred = |c: Command| command_matches(c, input@);
    let mut out: Vec<Command> = Vec::new();
    let mut i: usize = 0;
    while i < 13
        invariant
            i <= 13,
            all@ == all_commands(),
            empty == (input@.len() == 0),
            needle@ == lowercase(input@),
            pred == (|c: Command| command_matches(c, input@)),
            out@ == all@.take(i as int).filter(pred),
        decreases 13 - i,
    {
        let c = all[i];
        proof {
            assert(all@.take(i + 1) =~= all@.take(i as int).push(c));
            all@.take(i as int).lemma_filter_push(c, pred);
        }
        let keep = if empty {
            true
        } else {
            let label = to_lowercase_chars(c.label());
            contains_chars(&label, &needle)
        };
        if keep {
            out.push(c);
        }
        i += 1;
    }
    assert(all@.take(13) =~= all@);
    out
}

} // verus!
