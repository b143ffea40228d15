//! The catalogue of commands: a fixed, ordered list of descriptors, and the
//! lookup of a command by its name.

use vstd::prelude::*;
use crate::text::str_equal;

verus! {

/// What a command does when it runs.  Two names may share one handler.
#[derive(Clone, Copy, Debug, PartialEq, Eq, Structural)]
pub enum Handler {
    Clrs,
    Help,
    Test,
    Cc,
    Document,
    Chcolor,
    CmdHist,
    Shutdown,
    Reboot,
    Time,
    Date,
    Datetime,
    Crasher,
}

/// The descriptor of one command.
#[derive(Clone, Copy, Debug)]
pub struct Command {
    /// The name users type.
    pub name: &'static str,
    /// A hint at the arguments, for the help screen.
    pub args: &'static str,
    /// One line of documentation.
    pub doc: &'static str,
    /// What runs when the command is entered.
    pub fun: Handler,
}

/// A [`Command`] with its texts as sequences of characters.
pub struct CommandView {
    pub name: Seq<char>,
    pub args: Seq<char>,
    pub doc: Seq<char>,
    pub fun: Handler,
}

impl View for Command {
    type V = CommandView;

    open spec fn view(&self) -> CommandView {
        CommandView { name: self.name@, args: self.args@, doc: self.doc@, fun: self.fun }
    }
}

/// A list of descriptors by their views.
pub open spec fn commands_of(list: Seq<Command>) -> Seq<CommandView> {
    list.map_values(|c: Command| c@)
}

/// The commands of every build, in registration order.
pub open spec fn standard_commands() -> Seq<CommandView> {
    seq![
        CommandView { name: "clrs"@, args: ""@, doc: "clear the output"@, fun: Handler::Clrs },
        CommandView {
            name: "help"@,
            args: ""@,
            doc: "show a list of available commands"@,
            fun: Handler::Help,
        },
        CommandView { name: "test"@, args: ""@, doc: "test :)"@, fun: Handler::Test },
        CommandView { name: "cc"@, args: ""@, doc: "display copyright info"@, fun: Handler::Cc },
        CommandView {
            name: "getdoc"@,
            args: "[cmd]"@,
            doc: "display the documentation of selected command"@,
            fun: Handler::Document,
        },
        CommandView {
            name: "chcolor"@,
            args: "[fg] [bg]"@,
            doc: "change text color"@,
            fun: Handler::Chcolor,
        },
        CommandView {
            name: "history"@,
            args: ""@,
            doc: "display command history"@,
            fun: Handler::CmdHist,
        },
        CommandView {
            name: "shutdown"@,
            args: ""@,
            doc: "shutdown the system"@,
            fun: Handler::Shutdown,
        },
        CommandView {
            name: "reboot"@,
            args: ""@,
            doc: "reboot the system"@,
            fun: Handler::Reboot,
        },
        CommandView {
            name: "poweroff"@,
            args: ""@,
            doc: "shutdown the system (alias for shutdown)"@,
            fun: Handler::Shutdown,
        },
        CommandView { name: "time"@, args: ""@, doc: "show current time"@, fun: Handler::Time },
        CommandView { name: "date"@, args: ""@, doc: "show current date"@, fun: Handler::Date },
        CommandView {
            name: "datetime"@,
            args: ""@,
            doc: "show full date and time"@,
            fun: Handler::Datetime,
        },
    ]
}

/// The command that only debug builds have.
pub open spec fn crash_command() -> CommandView {
    CommandView {
        name: "crash_kernel"@,
        args: ""@,
        doc: "DEV | cause a kernel panic"@,
        fun: Handler::Crasher,
    }
}

/// The registry: the standard commands, and after them, in a debug build, the
/// crash command.
pub open spec fn registry(debug: bool) -> Seq<CommandView> {
    if debug {
        standard_commands().push(crash_command())
    } else {
        standard_commands()
    }
}

/// The position of the first descriptor at or after `from` whose name is
/// exactly `name`.
pub open spec fn first_match(list: Seq<CommandView>, name: Seq<char>, from: int) -> Option<int>
    decreases list.len() - from,
{
    if from < 0 || from >= list.len() {
        None
    } else if list[from].name == name {
        Some(from)
    } else {
        first_match(list, name, from + 1)
    }
}

/// The first descriptor of the list whose name is exactly `name`.
pub open spec fn find(list: Seq<CommandView>, name: Seq<char>) -> Option<CommandView> {
    match first_match(list, name, 0) {
        Some(i) => Some(list[i]),
        None => None,
    }
}

/// The registered command that `name` resolves to.
pub open spec fn resolved(name: Seq<char>, debug: bool) -> Option<CommandView> {
    find(registry(debug), name)
}

/// What [`first_match`] finds: a position that holds the name and has no
/// earlier position holding it, or nothing when no position holds the name.
pub proof fn lemma_first_match(list: Seq<CommandView>, name: Seq<char>, from: int)
    requires
        0 <= from,
    ensures
        match first_match(list, name, from) {
            Some(i) => from <= i < list.len() && list[i].name == name && forall|j: int|
                from <= j < i ==> (#[trigger] list[j]).name != name,
            None => forall|j: int| from <= j < list.len() ==> (#[trigger] list[j]).name != name,
        },
    decreases list.len() - from,
{
    if from < list.len() && list[from].name != name {
        lemma_first_match(list, name, from + 1);
    }
}

/// No two registered commands share a name.
pub proof fn lemma_names_distinct(debug: bool)
    ensures
        forall|i: int, j: int|
            0 <= i < j < registry(debug).len() ==> (#[trigger] registry(debug)[i]).name != (
            #[trigger] registry(debug)[j]).name,
{
    reveal_strlit("clrs");
    reveal_strlit("help");
    reveal_strlit("test");
    reveal_strlit("cc");
    reveal_strlit("getdoc");
    reveal_strlit("chcolor");
    reveal_strlit("history");
    reveal_strlit("shutdown");
    reveal_strlit("reboot");
    reveal_strlit("poweroff");
    reveal_strlit("time");
    reveal_strlit("date");
    reveal_strlit("datetime");
    reveal_strlit("crash_kernel");
    let reg = registry(debug);
    assert("clrs"@[0] == 'c' && "clrs"@.len() == 4);
    assert("help"@[0] == 'h' && "help"@.len() == 4);
    assert("test"@[1] == 'e' && "test"@.len() == 4);
    assert("cc"@.len() == 2);
    assert("getdoc"@[0] == 'g' && "getdoc"@.len() == 6);
    assert("chcolor"@[0] == 'c' && "chcolor"@.len() == 7);
    assert("history"@[0] == 'h' && "history"@.len() == 7);
    assert("shutdown"@[0] == 's' && "shutdown"@.len() == 8);
    assert("reboot"@[0] == 'r' && "reboot"@.len() == 6);
    assert("poweroff"@[0] == 'p' && "poweroff"@.len() == 8);
    assert("time"@[1] == 'i' && "time"@[0] == 't' && "time"@.len() == 4);
    assert("date"@[0] == 'd' && "date"@.len() == 4);
    assert("datetime"@[0] == 'd' && "datetime"@.len() == 8);
    assert("crash_kernel"@.len() == 12);
    assert("test"@[0] == 't');
}

/// Looking up the name of a registered command finds that very command, at
/// its own position.
pub proof fn lemma_lookup_finds_every_command(debug: bool, i: int)
    requires
        0 <= i < registry(debug).len(),
    ensures
        first_match(registry(debug), registry(debug)[i].name, 0) == Some(i),
        resolved(registry(debug)[i].name, debug) == Some(registry(debug)[i]),
{
    lemma_names_distinct(debug);
    lemma_first_match(registry(debug), registry(debug)[i].name, 0);
}

/// The registry as a list, in registration order.
pub fn command_list(debug: bool) -> (list: Vec<Command>)
    ensures
        commands_of(list@) == registry(debug),
{
    let mut list: Vec<Command> = Vec::new();
    list.push(Command { name: "clrs", args: "", doc: "clear the output", fun: Handler::Clrs });
    list.push(
        Command {
            name: "help",
            args: "",
            doc: "show a list of available commands",
            fun: Handler::Help,
        },
    );
    list.push(Command { name: "test", args: "", doc: "test :)", fun: Handler::Test });
    list.push(Command { name: "cc", args: "", doc: "display copyright info", fun: Handler::Cc });
    list.push(
        Command {
            name: "getdoc",
            args: "[cmd]",
            doc: "display the documentation of selected command",
            fun: Handler::Document,
        },
    );
    list.push(
        Command {
            name: "chcolor",
            args: "[fg] [bg]",
            doc: "change text color",
            fun: Handler::Chcolor,
        },
    );
    list.push(
        Command {
            name: "history",
            args: "",
            doc: "display command history",
            fun: Handler::CmdHist,
        },
    );
    list.push(
        Command { name: "shutdown", args: "", doc: "shutdown the system", fun: Handler::Shutdown },
    );
    list.push(
        Command { name: "reboot", args: "", doc: "reboot the system", fun: Handler::Reboot },
    );
    list.push(
        Command {
            name: "poweroff",
            args: "",
            doc: "shutdown the system (alias for shutdown)",
            fun: Handler::Shutdown,
        },
    );
    list.push(Command { name: "time", args: "", doc: "show current time", fun: Handler::Time });
    list.push(Command { name: "date", args: "", doc: "show current date", fun: Handler::Date });
    list.push(
        Command {
            name: "datetime",
            args: "",
            doc: "show full date and time",
            fun: Handler::Datetime,
        },
    );
    assert(commands_of(list@) =~= standard_commands());
    if debug {
        list.push(
            Command {
                name: "crash_kernel",
                args: "",
                doc: "DEV | cause a kernel panic",
                fun: Handler::Crasher,
            },
        );
        assert(commands_of(list@) =~= registry(debug));
    }
    list
}

/// Finds the first command of `list` whose name is exactly `name`: no case
/// folding, no prefix matching.
pub fn find_command(list: &Vec<Command>, name: &str) -> (found: Option<Command>)
    ensures
        found is Some <==> find(commands_of(list@), name@) is Some,
        found matches Some(c) ==> find(commands_of(list@), name@) == Some(c@),
{
    let ghost views = commands_of(list@);
    let mut i: usize = 0;
    while i < list.len()
        invariant
            i <= list.len(),
            views == commands_of(list@),
            first_match(views, name@, 0) == first_match(views, name@, i as int),
        decreases list.len() - i,
    {
        if str_equal(list[i].name, name) {
            return Some(list[i]);
        }
        i = i + 1;
    }
    None
}

/// Resolves a name against the registry.
pub fn lookup(name: &str, debug: bool) -> (found: Option<Command>)
    ensures
        found is Some <==> resolved(name@, debug) is Some,
        found matches Some(c) ==> resolved(name@, debug) == Some(c@),
{
    let list = command_list(debug);
    find_command(&list, name)
}

} // verus!
