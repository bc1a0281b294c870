//! A command: a name, help texts, and the function that carries it out.

use vstd::prelude::*;
use crate::log::{Level, Record, RecordView};

verus! {

/// A named unit of shell behaviour.
///
/// The executor `F` takes the argument list of one invocation and returns
/// whether it succeeded. It is any callable that can be copied, so that the
/// registry and a running invocation can hold the same command at once.
pub struct Command<F: Fn(Vec<String>) -> bool + Copy> {
    name: String,
    description: Option<String>,
    usage: Option<String>,
    executor: F,
}

/// What a command reports after an invocation that returned `success`: its
/// usage text as a warning where it failed and has one, nothing otherwise.
pub open spec fn report_of(usage: Option<Seq<char>>, success: bool) -> Option<RecordView> {
    match usage {
        Some(text) if !success => Some(RecordView { level: Level::Warn, message: text }),
        _ => None,
    }
}

impl<F: Fn(Vec<String>) -> bool + Copy> Command<F> {
    /// A command is well formed when it has a name and its executor accepts
    /// every argument list.
    #[verifier::type_invariant]
    closed spec fn wf(&self) -> bool {
        &&& self.name@.len() > 0
        &&& forall|args: Vec<String>| call_requires(self.executor, (args,))
    }

    /// The name by which the command is found.
    pub closed spec fn name(&self) -> Seq<char> {
        self.name@
    }

    /// The one-line description, if the command has one.
    pub closed spec fn description(&self) -> Option<Seq<char>> {
        self.description.deep_view()
    }

    /// The usage text, if the command has one.
    pub closed spec fn usage(&self) -> Option<Seq<char>> {
        self.usage.deep_view()
    }

    /// The function that carries the command out.
    pub closed spec fn executor(&self) -> F {
        self.executor
    }

    /// A command called `name` that `executor` carries out. The name has at
    /// least one character, and the executor takes every argument list.
    pub fn new(
        name: String,
        description: Option<String>,
        usage: Option<String>,
        executor: F,
    ) -> (command: Self)
        requires
            name@.len() > 0,
            forall|args: Vec<String>| call_requires(executor, (args,)),
        ensures
            command.name() == name@,
            command.description() == description.deep_view(),
            command.usage() == usage.deep_view(),
            command.executor() == executor,
    {
        Self { name, description, usage, executor }
    }

    /// A copy of the name.
    pub fn get_name(&self) -> (name: String)
        ensures
            name@ == self.name(),
    {
        self.name.clone()
    }

    /// A copy of the usage text, if the command has one.
    pub fn get_usage(&self) -> (usage: Option<String>)
        ensures
            usage.deep_view() == self.usage(),
    {
        match &self.usage {
            Some(text) => Some(text.clone()),
            None => None,
        }
    }

    /// A copy of the description, if the command has one.
    pub fn get_description(&self) -> (description: Option<String>)
        ensures
            description.deep_view() == self.description(),
    {
        match &self.description {
            Some(text) => Some(text.clone()),
            None => None,
        }
    }

    /// Whether the command goes by `name`.
    pub fn is_named(&self, name: &String) -> (r: bool)
        ensures
            r == (self.name() == name@),
    {
        self.name == *name
    }

    /// Runs the executor on `args` and returns its success flag.
    pub fn execute(&self, args: Vec<String>) -> (success: bool)
        ensures
            call_ensures(self.executor(), (args,), success),
    {
        proof {
            use_type_invariant(self);
        }
        let executor = self.executor;
        executor(args)
    }

    /// The message owed after an invocation that returned `success`.
    pub fn report(&self, success: bool) -> (record: Option<Record>)
        ensures
            record.deep_view() == report_of(self.usage(), success),
    {
        match &self.usage {
            Some(text) if !success => Some(Record { level: Level::Warn, message: text.clone() }),
            _ => None,
        }
    }
}

impl<F: Fn(Vec<String>) -> bool + Copy> Clone for Command<F> {
    /// The same command again: the texts are copied, the executor is shared.
    fn clone(&self) -> (copy: Self)
        ensures
            copy == *self,
    {
        proof {
            use_type_invariant(self);
        }
        Self {
            name: self.name.clone(),
            description: match &self.description {
                Some(text) => Some(text.clone()),
                None => None,
            },
            usage: match &self.usage {
                Some(text) => Some(text.clone()),
                None => None,
            },
            executor: self.executor,
        }
    }
}

} // verus!
