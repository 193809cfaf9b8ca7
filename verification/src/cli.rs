//! The bot's command line: which command a line of input is.

use vstd::prelude::*;

use crate::text::{push_char, push_text, same_text, seq_starts_with, starts_with, trim_end, trim_end_seq};

verus! {

/// A command typed on the bot's command line.
pub enum CliCommand {
    /// An empty line: show the prompt again.
    Prompt,
    /// `help`, `?` or `h`: show the help.
    Help,
    /// `exit`, `quit`, `stop` or `q`: stop the bot.
    Exit,
    /// A plugin command, as typed (without trailing white space).
    Plugin(String),
    /// Anything else, as typed (without trailing white space).
    Unknown(String),
}

/// The mathematical value of a [`CliCommand`].
pub ghost enum CliCommandView {
    Prompt,
    Help,
    Exit,
    Plugin(Seq<char>),
    Unknown(Seq<char>),
}

impl View for CliCommand {
    type V = CliCommandView;

    open spec fn view(&self) -> CliCommandView {
        match self {
            CliCommand::Prompt => CliCommandView::Prompt,
            CliCommand::Help => CliCommandView::Help,
            CliCommand::Exit => CliCommandView::Exit,
            CliCommand::Plugin(s) => CliCommandView::Plugin(s@),
            CliCommand::Unknown(s) => CliCommandView::Unknown(s@),
        }
    }
}

/// The command that a line of input is, once its trailing white space is
/// removed: the empty line, the help words, the stop words, a plugin
/// command (starting with `plugin_prefix`), or something unknown.
pub open spec fn cli_command_spec(line: Seq<char>, plugin_prefix: Seq<char>) -> CliCommandView {
    let cmd = trim_end_seq(line);
    if cmd.len() == 0 {
        CliCommandView::Prompt
    } else if cmd == "help"@ || cmd == "?"@ || cmd == "h"@ {
        CliCommandView::Help
    } else if cmd == "exit"@ || cmd == "quit"@ || cmd == "stop"@ || cmd == "q"@ {
        CliCommandView::Exit
    } else if seq_starts_with(cmd, plugin_prefix) {
        CliCommandView::Plugin(cmd)
    } else {
        CliCommandView::Unknown(cmd)
    }
}

/// Reads one line of input as a command.
pub fn parse_command(line: &str, plugin_prefix: &str) -> (r: CliCommand)
    ensures
        r@ == cli_command_spec(line@, plugin_prefix@),
{
    let cmd = trim_end(line);
    let c = cmd.as_str();
    if c.unicode_len() == 0 {
        CliCommand::Prompt
    } else if same_text(c, "help") || same_text(c, "?") || same_text(c, "h") {
        CliCommand::Help
    } else if same_text(c, "exit") || same_text(c, "quit") || same_text(c, "stop") || same_text(
        c,
        "q",
    ) {
        CliCommand::Exit
    } else if starts_with(c, plugin_prefix) {
        CliCommand::Plugin(cmd)
    } else {
        CliCommand::Unknown(cmd)
    }
}

/// The help text: a line break, then the entries, one per line (nothing at
/// all when there are no entries).
pub open spec fn help_text_spec(infos: Seq<&str>) -> Seq<char>
    decreases infos.len(),
{
    if infos.len() == 0 {
        Seq::empty()
    } else if infos.len() == 1 {
        seq!['\n'] + infos[0]@
    } else {
        help_text_spec(infos.drop_last()) + seq!['\n'] + infos.last()@
    }
}

/// The help text for the given entries.
pub fn help_text(infos: &[&str]) -> (r: String)
    ensures
        r@ == help_text_spec(infos@),
{
    let mut s = String::new();
    if infos.len() == 0 {
        return s;
    }
    push_char(&mut s, '\n');
    let mut i: usize = 0;
    while i < infos.len()
        invariant
            0 <= i <= infos@.len(),
            i == 0 ==> s@ == seq!['\n'],
            i > 0 ==> s@ == help_text_spec(infos@.take(i as int)),
        decreases infos.len() - i,
    {
        if i > 0 {
            push_char(&mut s, '\n');
        }
        push_text(&mut s, infos[i]);
        proof {
            let t = infos@.take(i + 1);
            assert(t.drop_last() =~= infos@.take(i as int));
            assert(t.last() == infos@[i as int]);
            if i == 0 {
                assert(t.len() == 1);
                assert(t[0] == infos@[0]);
            }
            assert(s@ =~= help_text_spec(t));
        }
        i = i + 1;
    }
    assert(infos@.take(infos@.len() as int) =~= infos@);
    s
}

} // verus!
