//! What a runner is handed, one program after the other.

use vstd::prelude::*;

use crate::restore::{CommandSpec, CommandView, ProcessRunner};
use crate::status::{Status, StatusView};

verus! {

/// A program that was handed to a runner, and the refusal where the runner has not carried it
/// out.
#[verifier::ext_equal]
pub struct RunView {
    pub command: CommandView,
    pub refusal: Option<StatusView>,
}

/// The refusal in an answer, where there is one.
pub open spec fn refusal_in(r: Result<(), Status>) -> Option<StatusView> {
    match r {
        Ok(_) => None,
        Err(status) => Some(status@),
    }
}

/// The run of a command that was answered with `r`.
pub open spec fn run_of(command: CommandView, r: Result<(), Status>) -> RunView {
    RunView { command, refusal: refusal_in(r) }
}

/// Whether the runner may have answered `r` for `command`.
pub open spec fn answered<R: ProcessRunner>(
    runner: R,
    command: CommandSpec,
    r: Result<(), Status>,
) -> bool {
    call_ensures(R::run, (&runner, &command), r)
}

/// Whether the run is of a command that the runner was handed and answered in this way.
pub open spec fn genuine<R: ProcessRunner>(runner: R, run: RunView) -> bool {
    exists|command: CommandSpec, r: Result<(), Status>| #[trigger]
        answered(runner, command, r) && run == run_of(command@, r)
}

/// A runner, with a record of what it was handed. The runner is reached through the record alone.
pub struct Runs<'a, R: ProcessRunner> {
    runner: &'a R,
    history: Ghost<Seq<RunView>>,
}

impl<'a, R: ProcessRunner> Runs<'a, R> {
    /// What the runner was handed so far, in order.
    pub closed spec fn history(&self) -> Seq<RunView> {
        self.history@
    }

    /// The runner.
    pub closed spec fn runner(&self) -> R {
        *self.runner
    }

    /// Whether every run in the record is one that the runner has answered.
    pub open spec fn wf(&self) -> bool {
        forall|i: int|
            0 <= i < self.history().len() ==> genuine(self.runner(), #[trigger] self.history()[i])
    }

    /// A runner that was handed nothing yet.
    pub fn new(runner: &'a R) -> (r: Runs<'a, R>)
        ensures
            r.history() == Seq::<RunView>::empty(),
            r.runner() == *runner,
            r.wf(),
    {
        Runs { runner, history: Ghost(Seq::empty()) }
    }

    /// Hands the runner one program, and gives its answer.
    pub fn run(&mut self, command: &CommandSpec) -> (r: Result<(), Status>)
        requires
            old(self).wf(),
        ensures
            final(self).wf(),
            final(self).history() == old(self).history().push(run_of(command@, r)),
            final(self).runner() == old(self).runner(),
            answered(old(self).runner(), *command, r),
    {
        let r = self.runner.run(command);
        assert(answered(*self.runner, *command, r));
        assert(genuine(*self.runner, run_of(command@, r)));
        let ghost before = self.history();
        self.history = Ghost(self.history@.push(run_of(command@, r)));
        assert forall|i: int| 0 <= i < self.history().len() implies genuine(
            self.runner(),
            #[trigger] self.history()[i],
        ) by {
            if i < before.len() {
                assert(genuine(self.runner(), before[i]));
            }
        }
        r
    }
}

} // verus!
