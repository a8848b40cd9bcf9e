use crate::command::{str_views, CommandSpec, CommandView, TokioCIStageBuilder};
use vstd::prelude::*;

verus! {

/// A program and its arguments, borrowed, before they become a command.
pub struct ProcessBuilder<'a> {
    exec_path: &'a str,
    args: &'a [&'a str],
}

impl<'a> ProcessBuilder<'a> {
    pub closed spec fn spec_exec_path(&self) -> Seq<char> {
        self.exec_path@
    }

    pub closed spec fn spec_args(&self) -> Seq<Seq<char>> {
        str_views(self.args@)
    }

    pub fn new(exec_path: &'a str, args: &'a [&'a str]) -> (r: Self)
        ensures
            r.spec_exec_path() == exec_path@,
            r.spec_args() == str_views(args@),
    {
        Self { exec_path, args }
    }

    /// The command `exec_path args...`, with no overrides and no working
    /// directory of its own.
    pub fn build(self) -> (r: Process)
        ensures
            r@ == CommandView::new(self.spec_exec_path()).with_args(self.spec_args()),
    {
        let ProcessBuilder { exec_path, args } = self;
        let stage = TokioCIStageBuilder::new(exec_path).args(args).build();
        Process { command: stage.into_command() }
    }
}

/// A command ready to be run once or again.
pub struct Process {
    command: CommandSpec,
}

impl View for Process {
    type V = CommandView;

    closed spec fn view(&self) -> CommandView {
        self.command@
    }
}

impl Process {
    pub fn command(&self) -> (r: &CommandSpec)
        ensures
            r@ == self@,
    {
        &self.command
    }
}

} // verus!
