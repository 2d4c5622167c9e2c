//! The description of one invocation of an external tool.

use crate::text::{opt_view, string_views};
use vstd::prelude::*;
use vstd::string::*;

verus! {

/// An invocation as plain data, ready to be spawned by the caller.
#[derive(Clone, Debug, PartialEq, Eq)]
pub struct CommandSpec {
    /// The executable to run.
    pub program: String,
    /// Its arguments, in order.
    pub args: Vec<String>,
    /// The directory to run it in, where that is not the caller's own.
    pub current_dir: Option<String>,
    /// Where the input must be copied before the tool runs, for tools that
    /// unpack a file in place.
    pub copy_input_to: Option<String>,
}

/// The mathematical content of a `CommandSpec`.
pub struct CommandView {
    pub program: Seq<char>,
    pub args: Seq<Seq<char>>,
    pub current_dir: Option<Seq<char>>,
    pub copy_input_to: Option<Seq<char>>,
}

impl CommandView {
    /// An invocation of `program` with no arguments.
    pub open spec fn new(program: Seq<char>) -> CommandView {
        CommandView { program, args: Seq::empty(), current_dir: None, copy_input_to: None }
    }

    /// The same invocation with one more argument at the end.
    pub open spec fn arg(self, a: Seq<char>) -> CommandView {
        CommandView { args: self.args.push(a), ..self }
    }

    /// The same invocation with one more argument where `cond` holds.
    pub open spec fn arg_if(self, cond: bool, a: Seq<char>) -> CommandView {
        if cond {
            self.arg(a)
        } else {
            self
        }
    }

    /// The same invocation, run in `dir`.
    pub open spec fn dir(self, dir: Seq<char>) -> CommandView {
        CommandView { current_dir: Some(dir), ..self }
    }

    /// The same invocation, after a copy of the input to `target`.
    pub open spec fn staged(self, target: Seq<char>) -> CommandView {
        CommandView { copy_input_to: Some(target), ..self }
    }
}

impl View for CommandSpec {
    type V = CommandView;

    open spec fn view(&self) -> CommandView {
        CommandView {
            program: self.program@,
            args: string_views(self.args@),
            current_dir: opt_view(self.current_dir),
            copy_input_to: opt_view(self.copy_input_to),
        }
    }
}

impl CommandSpec {
    /// An invocation of `program` with no arguments.
    pub fn new(program: &str) -> (r: CommandSpec)
        ensures
            r@ == CommandView::new(program@),
    {
        let r = CommandSpec {
            program: String::from_str(program),
            args: Vec::new(),
            current_dir: None,
            copy_input_to: None,
        };
        assert(string_views(r.args@) =~= Seq::<Seq<char>>::empty());
        r
    }

    /// Adds an argument at the end.
    pub fn arg(&mut self, a: &str)
        ensures
            final(self)@ == old(self)@.arg(a@),
    {
        self.args.push(String::from_str(a));
        assert(string_views(self.args@) =~= string_views(old(self).args@).push(a@));
    }

    /// Adds an argument at the end where `cond` holds.
    pub fn arg_if(&mut self, cond: bool, a: &str)
        ensures
            final(self)@ == old(self)@.arg_if(cond, a@),
    {
        if cond {
            self.arg(a);
        }
    }

    /// Sets the directory to run in.
    pub fn dir(&mut self, dir: &str)
        ensures
            final(self)@ == old(self)@.dir(dir@),
    {
        self.current_dir = Some(String::from_str(dir));
    }

    /// Asks for a copy of the input to `target` before the run.
    pub fn staged(&mut self, target: &str)
        ensures
            final(self)@ == old(self)@.staged(target@),
    {
        self.copy_input_to = Some(String::from_str(target));
    }
}

/// An adapter's refusal to build a command, with its reason in words.
#[derive(Clone, Debug, PartialEq, Eq)]
pub struct AdapterError {
    pub message: String,
}

impl View for AdapterError {
    type V = Seq<char>;

    open spec fn view(&self) -> Seq<char> {
        self.message@
    }
}

/// The content of what a command builder returns.
pub open spec fn built_view(r: Result<CommandSpec, AdapterError>) -> Result<
    CommandView,
    Seq<char>,
> {
    match r {
        Ok(c) => Ok(c@),
        Err(e) => Err(e@),
    }
}

/// A refusal with a fixed message.
pub fn refuse_plain(message: &str) -> (r: Result<CommandSpec, AdapterError>)
    ensures
        built_view(r) == Err::<CommandView, Seq<char>>(message@),
{
    Err(AdapterError { message: String::from_str(message) })
}

/// A refusal whose message is `prefix` followed by `detail`.
pub fn refuse(prefix: &str, detail: &str) -> (r: Result<CommandSpec, AdapterError>)
    ensures
        built_view(r) == Err::<CommandView, Seq<char>>(prefix@ + detail@),
{
    Err(AdapterError { message: String::from_str(prefix).concat(detail) })
}

} // verus!
