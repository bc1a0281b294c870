//! The registry of commands, keyed by name.

use vstd::prelude::*;
use crate::command::{report_of, Command};
use crate::log::{Level, Record, RecordView};
use crate::text::{split_whitespace, words};

verus! {

/// A table of commands in which each name occurs at most once.
pub struct CommandDispatcher<F: Fn(Vec<String>) -> bool + Copy> {
    commands: Vec<Command<F>>,
}

/// A command that was looked up for a line, with the arguments of the line.
///
/// It holds the command itself and no borrow of the registry, so that the
/// host can let go of the registry before it runs the command.
pub struct Invocation<F: Fn(Vec<String>) -> bool + Copy> {
    pub command: Command<F>,
    pub args: Vec<String>,
}

/// The message drawn for a line whose first word names no command.
pub open spec fn not_found_record() -> RecordView {
    RecordView { level: Level::Warn, message: "Command not found!"@ }
}

/// Whether the first of the words `line` names a registered command.
pub open spec fn names_command<F: Fn(Vec<String>) -> bool + Copy>(
    table: Map<Seq<char>, Command<F>>,
    line: Seq<Seq<char>>,
) -> bool {
    line.len() > 0 && table.contains_key(line[0])
}

/// What the dispatch of the words `line` reports, where the invocation, if
/// one is made, returns `success`: nothing for a line without words, the
/// not-found warning for an unknown first word, else the command's report.
pub open spec fn dispatch_report<F: Fn(Vec<String>) -> bool + Copy>(
    table: Map<Seq<char>, Command<F>>,
    line: Seq<Seq<char>>,
    success: bool,
) -> Option<RecordView> {
    if line.len() == 0 {
        None
    } else if !table.contains_key(line[0]) {
        Some(not_found_record())
    } else {
        report_of(table[line[0]].usage(), success)
    }
}

/// The message drawn for a line whose first word names no command.
pub fn not_found() -> (record: Record)
    ensures
        record@ == not_found_record(),
{
    Record { level: Level::Warn, message: "Command not found!".to_string() }
}

impl<F: Fn(Vec<String>) -> bool + Copy> Invocation<F> {
    /// Runs the command on the arguments, once, and returns what it
    /// reports: its usage text as a warning where it failed and has one.
    pub fn run(self) -> (record: Option<Record>)
        ensures
            exists|success: bool|
                call_ensures(self.command.executor(), (self.args,), success)
                    && record.deep_view() == report_of(self.command.usage(), success),
    {
        let success = self.command.execute(self.args);
        self.command.report(success)
    }
}

/// Whether `name` is the name of one of `commands`.
spec fn is_listed<F: Fn(Vec<String>) -> bool + Copy>(
    commands: Seq<Command<F>>,
    name: Seq<char>,
) -> bool {
    exists|i: int| 0 <= i < commands.len() && #[trigger] commands[i].name() == name
}

/// The place of the command called `name` among `commands`.
spec fn place_of<F: Fn(Vec<String>) -> bool + Copy>(
    commands: Seq<Command<F>>,
    name: Seq<char>,
) -> int {
    choose|i: int| 0 <= i < commands.len() && #[trigger] commands[i].name() == name
}

/// No two of `commands` share a name.
spec fn distinct_names<F: Fn(Vec<String>) -> bool + Copy>(
    commands: Seq<Command<F>>,
) -> bool {
    forall|i: int, j: int|
        0 <= i < j < commands.len() ==> #[trigger] commands[i].name() != #[trigger] commands[j].name()
}

/// The table that a list of commands with distinct names stands for.
spec fn table_of<F: Fn(Vec<String>) -> bool + Copy>(commands: Seq<Command<F>>) -> Map<
    Seq<char>,
    Command<F>,
> {
    Map::new(
        |name: Seq<char>| is_listed(commands, name),
        |name: Seq<char>| commands[place_of(commands, name)],
    )
}

impl<F: Fn(Vec<String>) -> bool + Copy> CommandDispatcher<F> {
    /// The registry as a map from each registered name to its command.
    pub closed spec fn view(&self) -> Map<Seq<char>, Command<F>> {
        table_of(self.commands@)
    }

    #[verifier::type_invariant]
    closed spec fn wf(&self) -> bool {
        distinct_names(self.commands@)
    }

    /// An empty registry.
    pub fn new() -> (registry: Self)
        ensures
            registry@ == Map::<Seq<char>, Command<F>>::empty(),
    {
        Self { commands: Vec::new() }
    }

    /// The place of the command called `name`, if there is one.
    fn find(&self, name: &String) -> (place: Option<usize>)
        ensures
            match place {
                Some(i) => i < self.commands@.len() && self.commands@[i as int].name() == name@,
                None => !is_listed(self.commands@, name@),
            },
    {
        let mut i: usize = 0;
        while i < self.commands.len()
            invariant
                i <= self.commands@.len(),
                forall|j: int| 0 <= j < i ==> self.commands@[j].name() != name@,
            decreases self.commands@.len() - i,
        {
            if self.commands[i].is_named(name) {
                return Some(i);
            }
            i += 1;
        }
        None
    }

    /// The command registered under `name`, if there is one.
    pub fn get_command(&self, name: &String) -> (found: Option<&Command<F>>)
        ensures
            match found {
                Some(command) => self@.contains_key(name@) && *command == self@[name@],
                None => !self@.contains_key(name@),
            },
    {
        proof {
            use_type_invariant(self);
        }
        match self.find(name) {
            Some(i) => {
                proof {
                    lemma_place_of(self.commands@, i as int);
                }
                Some(&self.commands[i])
            },
            None => None,
        }
    }

    /// Looks up the command that a line's first word `name` asks for and
    /// binds it to the line's other words. `None` where no command goes by
    /// that name.
    pub fn resolve(&self, name: &String, args: Vec<String>) -> (found: Option<Invocation<F>>)
        ensures
            match found {
                Some(invocation) => self@.contains_key(name@) && invocation.command == self@[name@]
                    && invocation.args == args,
                None => !self@.contains_key(name@),
            },
    {
        match self.get_command(name) {
            Some(command) => Some(Invocation { command: command.clone(), args }),
            None => None,
        }
    }

    /// Dispatches a typed line: runs the command that its first word names
    /// on its other words, in their order, and returns what is to be drawn
    /// about it, if anything.
    pub fn dispatch(&self, line: &str) -> (record: Option<Record>)
        ensures
            names_command(self@, words(line@)) ==> exists|args: Vec<String>, success: bool|
                {
                    &&& args.deep_view() == words(line@).skip(1)
                    &&& call_ensures(self@[words(line@)[0]].executor(), (args,), success)
                    &&& record.deep_view() == dispatch_report(self@, words(line@), success)
                },
            !names_command(self@, words(line@)) ==> record.deep_view() == dispatch_report(
                self@,
                words(line@),
                false,
            ),
    {
        let mut args = split_whitespace(line);
        if args.len() == 0 {
            return None;
        }
        let name = args.remove(0);
        match self.resolve(&name, args) {
            Some(invocation) => invocation.run(),
            None => Some(not_found()),
        }
    }

    /// Registers `command` under its name, in place of the command that was
    /// registered under that name before, if there was one.
    pub fn add_command(&mut self, command: Command<F>)
        ensures
            final(self)@ == old(self)@.insert(command.name(), command),
    {
        proof {
            use_type_invariant(&*self);
        }
        let name = command.get_name();
        let ghost before = self.commands@;
        let place = self.find(&name);
        let mut commands: Vec<Command<F>> = Vec::new();
        core::mem::swap(&mut self.commands, &mut commands);
        match place {
            Some(i) => {
                commands.set(i, command);
                proof {
                    lemma_replaced(before, i as int, command);
                }
            },
            None => {
                commands.push(command);
                proof {
                    lemma_appended(before, command);
                }
            },
        }
        core::mem::swap(&mut self.commands, &mut commands);
    }

    /// Every registered command, each once, in no particular order.
    pub fn get_command_names(&self) -> (all: Vec<&Command<F>>)
        ensures
            forall|i: int|
                0 <= i < all@.len() ==> self@.contains_key(#[trigger] all@[i].name()) && self@[all@[i].name()]
                    == *all@[i],
            forall|name: Seq<char>|
                self@.contains_key(name) ==> exists|i: int|
                    0 <= i < all@.len() && #[trigger] all@[i].name() == name,
            forall|i: int, j: int|
                0 <= i < j < all@.len() ==> #[trigger] all@[i].name() != #[trigger] all@[j].name(),
    {
        proof {
            use_type_invariant(self);
        }
        let mut all: Vec<&Command<F>> = Vec::new();
        let mut i: usize = 0;
        while i < self.commands.len()
            invariant
                i <= self.commands@.len(),
                all@.len() == i,
                forall|j: int| 0 <= j < i ==> *#[trigger] all@[j] == self.commands@[j],
            decreases self.commands@.len() - i,
        {
            all.push(&self.commands[i]);
            i += 1;
        }
        proof {
            assert forall|k: int| 0 <= k < all@.len() implies self@.contains_key(
                #[trigger] all@[k].name(),
            ) && self@[all@[k].name()] == *all@[k] by {
                lemma_place_of(self.commands@, k);
            }
            assert forall|name: Seq<char>| self@.contains_key(name) implies exists|k: int|
                0 <= k < all@.len() && #[trigger] all@[k].name() == name by {
                let k = place_of(self.commands@, name);
                assert(all@[k].name() == name);
            }
        }
        all
    }
}

/// A line whose first word names no registered command reports the
/// not-found warning, once, whatever else is on the line.
pub proof fn lemma_unknown_command<F: Fn(Vec<String>) -> bool + Copy>(
    table: Map<Seq<char>, Command<F>>,
    line: Seq<Seq<char>>,
    success: bool,
)
    requires
        line.len() > 0,
        !table.contains_key(line[0]),
    ensures
        dispatch_report(table, line, success) == Some(not_found_record()),
{
}

/// A failed command with a usage text reports that text as a warning; a
/// command without one, or one that succeeded, reports nothing.
pub proof fn lemma_usage_on_failure<F: Fn(Vec<String>) -> bool + Copy>(
    table: Map<Seq<char>, Command<F>>,
    line: Seq<Seq<char>>,
    success: bool,
)
    requires
        names_command(table, line),
    ensures
        dispatch_report(table, line, success) == match table[line[0]].usage() {
            Some(text) if !success => Some(RecordView { level: Level::Warn, message: text }),
            _ => None,
        },
{
}

/// Registering under a name that is taken replaces: after `first` and then
/// `second` are registered under one name, a lookup by that name gives
/// `second`, and the table is as if `first` had never been registered.
pub proof fn lemma_register_replaces<F: Fn(Vec<String>) -> bool + Copy>(
    table: Map<Seq<char>, Command<F>>,
    first: Command<F>,
    second: Command<F>,
)
    requires
        first.name() == second.name(),
    ensures
        table.insert(first.name(), first).insert(second.name(), second)[second.name()] == second,
        table.insert(first.name(), first).insert(second.name(), second) == table.insert(
            second.name(),
            second,
        ),
{
    assert(table.insert(first.name(), first).insert(second.name(), second) =~= table.insert(
        second.name(),
        second,
    ));
}

/// In a list with distinct names, each command is the one that the table
/// holds under its name.
proof fn lemma_place_of<F: Fn(Vec<String>) -> bool + Copy>(commands: Seq<Command<F>>, i: int)
    requires
        distinct_names(commands),
        0 <= i < commands.len(),
    ensures
        is_listed(commands, commands[i].name()),
        place_of(commands, commands[i].name()) == i,
        table_of(commands).contains_key(commands[i].name()),
        table_of(commands)[commands[i].name()] == commands[i],
{
    let j = place_of(commands, commands[i].name());
    assert(commands[j].name() == commands[i].name());
}

/// Putting `command` in the place of the command of the same name gives the
/// table with `command` under that name.
proof fn lemma_replaced<F: Fn(Vec<String>) -> bool + Copy>(
    commands: Seq<Command<F>>,
    i: int,
    command: Command<F>,
)
    requires
        distinct_names(commands),
        0 <= i < commands.len(),
        commands[i].name() == command.name(),
    ensures
        distinct_names(commands.update(i, command)),
        table_of(commands.update(i, command)) == table_of(commands).insert(command.name(), command),
{
    let after = commands.update(i, command);
    assert forall|a: int, b: int| 0 <= a < b < after.len() implies #[trigger] after[a].name()
        != #[trigger] after[b].name() by {
        assert(after[a].name() == commands[a].name());
        assert(after[b].name() == commands[b].name());
    }
    let left = table_of(after);
    let right = table_of(commands).insert(command.name(), command);
    assert forall|name: Seq<char>| left.contains_key(name) <==> right.contains_key(name) by {
        if left.contains_key(name) {
            let k = place_of(after, name);
            assert(commands[k].name() == name);
        }
        if right.contains_key(name) {
            if name == command.name() {
                assert(after[i].name() == name);
            } else {
                let k = place_of(commands, name);
                assert(after[k].name() == name);
            }
        }
    }
    assert forall|name: Seq<char>| left.contains_key(name) implies left[name] == right[name] by {
        let k = place_of(after, name);
        lemma_place_of(after, k);
        if k != i {
            lemma_place_of(commands, k);
        }
    }
    assert(left =~= right);
}

/// Appending a command whose name is new gives the table with `command`
/// under that name.
proof fn lemma_appended<F: Fn(Vec<String>) -> bool + Copy>(
    commands: Seq<Command<F>>,
    command: Command<F>,
)
    requires
        distinct_names(commands),
        !is_listed(commands, command.name()),
    ensures
        distinct_names(commands.push(command)),
        table_of(commands.push(command)) == table_of(commands).insert(command.name(), command),
{
    let after = commands.push(command);
    let last = commands.len() as int;
    assert forall|a: int, b: int| 0 <= a < b < after.len() implies #[trigger] after[a].name()
        != #[trigger] after[b].name() by {
        assert(after[a].name() == commands[a].name());
        if b < last {
            assert(after[b].name() == commands[b].name());
        }
    }
    let left = table_of(after);
    let right = table_of(commands).insert(command.name(), command);
    assert forall|name: Seq<char>| left.contains_key(name) <==> right.contains_key(name) by {
        if left.contains_key(name) {
            let k = place_of(after, name);
            if k < last {
                assert(commands[k].name() == name);
            }
        }
        if right.contains_key(name) {
            if name == command.name() {
                assert(after[last].name() == name);
            } else {
                let k = place_of(commands, name);
                assert(after[k].name() == name);
            }
        }
    }
    assert forall|name: Seq<char>| left.contains_key(name) implies left[name] == right[name] by {
        let k = place_of(after, name);
        lemma_place_of(after, k);
        if k < last {
            lemma_place_of(commands, k);
        }
    }
    assert(left =~= right);
}

} // verus!
