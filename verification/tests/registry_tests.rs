use hlshell::registry::command_list;
use hlshell::registry::find_command;
use hlshell::registry::lookup;
use hlshell::registry::Command;
use hlshell::registry::Handler;

const NAMES: [&str; 13] = [
    "clrs", "help", "test", "cc", "getdoc", "chcolor", "history", "shutdown", "reboot",
    "poweroff", "time", "date", "datetime",
];

#[test]
fn registry_lists_the_commands_in_registration_order() {
    let list = command_list(false);
    let names: Vec<&str> = list.iter().map(|c| c.name).collect();
    assert_eq!(names, NAMES.to_vec());
}

#[test]
fn registry_of_a_debug_build_ends_with_the_crash_command() {
    let list = command_list(true);
    assert_eq!(list.len(), 14);
    let names: Vec<&str> = list.iter().take(13).map(|c| c.name).collect();
    assert_eq!(names, NAMES.to_vec());
    let last = list[13];
    assert_eq!(last.name, "crash_kernel");
    assert_eq!(last.args, "");
    assert_eq!(last.doc, "DEV | cause a kernel panic");
    assert_eq!(last.fun, Handler::Crasher);
}

#[test]
fn registry_holds_hints_and_documentation() {
    let list = command_list(false);
    assert_eq!(list[0].doc, "clear the output");
    assert_eq!(list[1].doc, "show a list of available commands");
    assert_eq!(list[2].doc, "test :)");
    assert_eq!(list[3].doc, "display copyright info");
    assert_eq!(list[4].args, "[cmd]");
    assert_eq!(list[4].doc, "display the documentation of selected command");
    assert_eq!(list[5].args, "[fg] [bg]");
    assert_eq!(list[5].doc, "change text color");
    assert_eq!(list[6].doc, "display command history");
    assert_eq!(list[7].doc, "shutdown the system");
    assert_eq!(list[8].doc, "reboot the system");
    assert_eq!(list[9].doc, "shutdown the system (alias for shutdown)");
    assert_eq!(list[10].doc, "show current time");
    assert_eq!(list[11].doc, "show current date");
    assert_eq!(list[12].doc, "show full date and time");
    for (i, c) in list.iter().enumerate() {
        if i != 4 && i != 5 {
            assert_eq!(c.args, "");
        }
    }
}

#[test]
fn registry_binds_each_name_to_its_handler() {
    let handlers = [
        Handler::Clrs,
        Handler::Help,
        Handler::Test,
        Handler::Cc,
        Handler::Document,
        Handler::Chcolor,
        Handler::CmdHist,
        Handler::Shutdown,
        Handler::Reboot,
        Handler::Shutdown,
        Handler::Time,
        Handler::Date,
        Handler::Datetime,
    ];
    let list = command_list(false);
    for i in 0..13 {
        assert_eq!(list[i].fun, handlers[i]);
    }
}

#[test]
fn lookup_returns_every_registered_command() {
    for debug in [false, true] {
        for c in command_list(debug) {
            let found = lookup(c.name, debug).unwrap();
            assert_eq!(found.name, c.name);
            assert_eq!(found.args, c.args);
            assert_eq!(found.doc, c.doc);
            assert_eq!(found.fun, c.fun);
        }
    }
}

#[test]
fn lookup_matches_exactly() {
    assert!(lookup("HELP", false).is_none());
    assert!(lookup("Help", false).is_none());
    assert!(lookup("hel", false).is_none());
    assert!(lookup("helpp", false).is_none());
    assert!(lookup("help ", false).is_none());
    assert!(lookup("help\n", false).is_none());
    assert!(lookup("", false).is_none());
    assert!(lookup("nosuchcmd", false).is_none());
}

#[test]
fn lookup_finds_the_crash_command_in_debug_builds_only() {
    assert!(lookup("crash_kernel", false).is_none());
    assert_eq!(lookup("crash_kernel", true).unwrap().fun, Handler::Crasher);
}

#[test]
fn find_command_takes_the_first_of_two_equal_names() {
    let list = vec![
        Command { name: "a", args: "", doc: "first", fun: Handler::Help },
        Command { name: "b", args: "", doc: "other", fun: Handler::Test },
        Command { name: "a", args: "", doc: "second", fun: Handler::Cc },
    ];
    let found = find_command(&list, "a").unwrap();
    assert_eq!(found.doc, "first");
    assert_eq!(found.fun, Handler::Help);
    assert_eq!(find_command(&list, "b").unwrap().doc, "other");
    assert!(find_command(&list, "c").is_none());
    assert!(find_command(&Vec::new(), "a").is_none());
}
