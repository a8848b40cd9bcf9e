use crate::command::{CommandSpec, CommandView, TokioCIStage};
use vstd::prelude::*;

verus! {

/// The environment variable through which rustup picks the toolchain.
pub const TOOLCHAIN_VAR: &'static str = "RUSTUP_TOOLCHAIN";

/// The toolchain a pipeline runs under.
#[derive(PartialEq, Eq, Structural, Clone, Copy, Debug)]
pub enum ToolChain {
    Stable,
    Nightly,
}

impl ToolChain {
    pub open spec fn spec_name(self) -> Seq<char> {
        match self {
            ToolChain::Stable => "stable"@,
            ToolChain::Nightly => "nightly"@,
        }
    }

    /// The toolchain's name as rustup knows it.
    pub fn name(&self) -> (r: &'static str)
        ensures
            r@ == self.spec_name(),
    {
        match self {
            ToolChain::Stable => "stable",
            ToolChain::Nightly => "nightly",
        }
    }
}

/// How a process that ran ended without success.
#[derive(PartialEq, Eq, Structural, Clone, Copy, Debug)]
pub enum Termination {
    /// It exited with this non-zero code.
    Code(i32),
    /// It was stopped by this signal.
    Signal(i32),
    /// The platform reported neither a code nor a signal.
    Unknown,
}

/// What running one stage's command came to.
#[derive(PartialEq, Eq, Structural, Clone, Copy, Debug)]
pub enum StageOutcome {
    Succeeded,
    Failed(Termination),
    /// The program could not be started at all.
    SpawnFailed,
}

impl StageOutcome {
    /// Classifies an exit status: `success` as the platform reports it,
    /// with the exit code or the signal where there is one.
    pub fn from_exit(success: bool, code: Option<i32>, signal: Option<i32>) -> (r: StageOutcome)
        ensures
            success <==> r == StageOutcome::Succeeded,
            !success && code is Some ==> r == StageOutcome::Failed(Termination::Code(code->0)),
            !success && code is None && signal is Some ==> r == StageOutcome::Failed(
                Termination::Signal(signal->0),
            ),
            !success && code is None && signal is None ==> r == StageOutcome::Failed(
                Termination::Unknown,
            ),
    {
        if success {
            StageOutcome::Succeeded
        } else {
            match (code, signal) {
                (Some(c), _) => StageOutcome::Failed(Termination::Code(c)),
                (None, Some(s)) => StageOutcome::Failed(Termination::Signal(s)),
                (None, None) => StageOutcome::Failed(Termination::Unknown),
            }
        }
    }
}

/// Why a CI run did not succeed.
#[derive(PartialEq, Eq, Structural, Clone, Copy, Debug)]
pub enum CiError {
    /// The command of stage `stage` could not be started.
    SpawnFailed { stage: usize },
    /// The command of stage `stage` ran and ended without success.
    StageFailed { stage: usize, status: Termination },
    /// Set-up command `command` could not be started, or ended without
    /// success, as `outcome` tells.
    SetupFailed { command: usize, outcome: StageOutcome },
    /// No step of the catalogue has the requested name.
    InvalidSelection,
}

/// The error that outcome `o` of stage `stage` stops a run with.
pub open spec fn failure_of(stage: nat, o: StageOutcome) -> CiError {
    match o {
        StageOutcome::Failed(t) => CiError::StageFailed { stage: stage as usize, status: t },
        _ => CiError::SpawnFailed { stage: stage as usize },
    }
}

/// What the driver of a run is to do next.
#[derive(PartialEq, Eq, Debug)]
pub enum Action {
    /// Run the command with this index (set-up commands first, then the
    /// stages) and report its outcome.
    Launch(usize),
    /// The run is over, with this result.
    Finish(Result<(), CiError>),
}

/// A pipeline as data: its toolchain, the set-up commands that run first and
/// outside the toolchain selection, and its stages in order.
pub struct StepView {
    pub toolchain: ToolChain,
    pub setup: Seq<CommandView>,
    pub stages: Seq<CommandView>,
}

/// A command with the toolchain override added after its own overrides.
pub open spec fn with_toolchain(c: CommandView, tc: ToolChain) -> CommandView {
    c.with_envs(seq![(TOOLCHAIN_VAR@, tc.spec_name())])
}

impl StepView {
    /// The stages as they are launched: each with the toolchain override.
    pub open spec fn launched_stages(self) -> Seq<CommandView> {
        self.stages.map_values(|c: CommandView| with_toolchain(c, self.toolchain))
    }

    /// A run of this pipeline before anything has been launched: the set-up
    /// commands as they are, then the stages with the toolchain override.
    pub open spec fn start(self) -> ExecView {
        ExecView {
            commands: self.setup + self.launched_stages(),
            setup_len: self.setup.len(),
            launched: 0,
            failure: None,
        }
    }
}

/// A run in progress: the commands in launch order (the first `setup_len`
/// of them set-up commands), how many have been launched, and the failure
/// that ended it, if any.
pub struct ExecView {
    pub commands: Seq<CommandView>,
    pub setup_len: nat,
    pub launched: nat,
    pub failure: Option<CiError>,
}

impl ExecView {
    pub open spec fn next_action(self) -> Action {
        match self.failure {
            Some(e) => Action::Finish(Err(e)),
            None => if self.launched < self.commands.len() {
                Action::Launch(self.launched as usize)
            } else {
                Action::Finish(Ok(()))
            },
        }
    }

    /// The run after the command just launched ended with `o`. Any outcome
    /// but success ends the run, set-up commands included.
    pub open spec fn record(self, o: StageOutcome) -> ExecView {
        ExecView {
            commands: self.commands,
            setup_len: self.setup_len,
            launched: self.launched + 1,
            failure: if o == StageOutcome::Succeeded {
                None
            } else if self.launched < self.setup_len {
                Some(CiError::SetupFailed { command: self.launched as usize, outcome: o })
            } else {
                Some(failure_of((self.launched - self.setup_len) as nat, o))
            },
        }
    }
}

/// Drives a run by handing it `outcomes` one by one while it asks for a
/// launch: the run where it stopped, and the indices it launched in order.
pub open spec fn drive(e: ExecView, outcomes: Seq<StageOutcome>) -> (ExecView, Seq<nat>)
    decreases outcomes.len(),
{
    if outcomes.len() > 0 && e.next_action() is Launch {
        let (f, l) = drive(e.record(outcomes[0]), outcomes.drop_first());
        (f, seq![e.launched] + l)
    } else {
        (e, Seq::empty())
    }
}

/// A pipeline: set-up commands, then stages that run in order under one
/// toolchain.
pub struct TokioCIStep {
    toolchain: ToolChain,
    setup: Vec<TokioCIStage>,
    stages: Vec<TokioCIStage>,
}

impl View for TokioCIStep {
    type V = StepView;

    closed spec fn view(&self) -> StepView {
        StepView {
            toolchain: self.toolchain,
            setup: self.setup@.map_values(|s: TokioCIStage| s@),
            stages: self.stages@.map_values(|s: TokioCIStage| s@),
        }
    }
}

impl TokioCIStep {
    /// A pipeline of `stages` under `toolchain`, with no set-up commands.
    pub fn new(stages: Vec<TokioCIStage>, toolchain: ToolChain) -> (r: TokioCIStep)
        ensures
            r@ == (StepView {
                toolchain,
                setup: Seq::empty(),
                stages: stages@.map_values(|s: TokioCIStage| s@),
            }),
    {
        let r = TokioCIStep { toolchain, setup: Vec::new(), stages };
        assert(r@.setup =~= Seq::empty());
        r
    }

    /// A pipeline of `stages` under `toolchain`, preceded by `setup`, which
    /// runs with no toolchain override.
    pub fn with_setup(setup: Vec<TokioCIStage>, stages: Vec<TokioCIStage>, toolchain: ToolChain) -> (r:
        TokioCIStep)
        ensures
            r@ == (StepView {
                toolchain,
                setup: setup@.map_values(|s: TokioCIStage| s@),
                stages: stages@.map_values(|s: TokioCIStage| s@),
            }),
    {
        TokioCIStep { toolchain, setup, stages }
    }

    pub fn toolchain(&self) -> (r: ToolChain)
        ensures
            r == self@.toolchain,
    {
        self.toolchain
    }

    /// The number of stages, set-up commands not counted.
    pub fn len(&self) -> (r: usize)
        ensures
            r == self@.stages.len(),
    {
        self.stages.len()
    }

    /// Adds the toolchain override to every stage, before any of them runs;
    /// the set-up commands are left as they are.
    fn setup_toolchain(&mut self)
        ensures
            final(self)@.toolchain == old(self)@.toolchain,
            final(self)@.setup == old(self)@.setup,
            final(self)@.stages == old(self)@.launched_stages(),
    {
        let ghost start = self@;
        let name = self.toolchain.name();
        let mut i: usize = 0;
        while i < self.stages.len()
            invariant
                i <= self.stages@.len(),
                self@.toolchain == start.toolchain,
                self@.setup == start.setup,
                self@.stages.len() == start.stages.len(),
                name@ == start.toolchain.spec_name(),
                forall|j: int|
                    0 <= j < i ==> #[trigger] self.stages@[j]@ == with_toolchain(
                        start.stages[j],
                        start.toolchain,
                    ),
                forall|j: int| i <= j < self.stages@.len() ==> #[trigger] self.stages@[j]@ == start.stages[j],
            decreases self.stages@.len() - i,
        {
            self.stages[i].add_env(TOOLCHAIN_VAR, name);
            i = i + 1;
        }
        assert(self@.stages =~= start.launched_stages());
    }

    /// Begins a run: the toolchain override goes into every stage and into
    /// no set-up command, and nothing has been launched yet.
    pub fn start(self) -> (r: Execution)
        ensures
            r@ == self@.start(),
    {
        let mut step = self;
        step.setup_toolchain();
        let ghost setup = step@.setup;
        let ghost stages = step@.stages;
        let setup_len = step.setup.len();
        let mut commands = step.setup;
        let mut rest = step.stages;
        let ghost before = commands@;
        let ghost moved = rest@;
        commands.append(&mut rest);
        assert(commands@ =~= before + moved);
        let r = Execution { commands, setup_len, launched: 0, failure: None };
        assert(r@.commands =~= setup + stages);
        r
    }
}

/// A run of a pipeline. The driver asks `next_action`, runs the command it
/// names, reports the outcome with `record`, and goes on until the action is
/// `Finish`.
pub struct Execution {
    commands: Vec<TokioCIStage>,
    setup_len: usize,
    launched: usize,
    failure: Option<CiError>,
}

impl View for Execution {
    type V = ExecView;

    closed spec fn view(&self) -> ExecView {
        ExecView {
            commands: self.commands@.map_values(|s: TokioCIStage| s@),
            setup_len: self.setup_len as nat,
            launched: self.launched as nat,
            failure: self.failure,
        }
    }
}

impl Execution {
    pub fn next_action(&self) -> (r: Action)
        ensures
            r == self@.next_action(),
    {
        match self.failure {
            Some(e) => Action::Finish(Err(e)),
            None => if self.launched < self.commands.len() {
                Action::Launch(self.launched)
            } else {
                Action::Finish(Ok(()))
            },
        }
    }

    /// The command with index `i`, as it is to be launched.
    pub fn command(&self, i: usize) -> (r: &CommandSpec)
        requires
            i < self@.commands.len(),
        ensures
            r@ == self@.commands[i as int],
    {
        self.commands[i].command()
    }

    /// Reports how the command just launched ended.
    pub fn record(&mut self, outcome: StageOutcome)
        requires
            old(self)@.next_action() is Launch,
        ensures
            final(self)@ == old(self)@.record(outcome),
    {
        let i = self.launched;
        assert(i < self.commands.len());
        self.launched = i + 1;
        if outcome != StageOutcome::Succeeded {
            if i < self.setup_len {
                self.failure = Some(CiError::SetupFailed { command: i, outcome });
            } else {
                let stage = i - self.setup_len;
                self.failure = match outcome {
                    StageOutcome::Failed(t) => Some(CiError::StageFailed { stage, status: t }),
                    _ => Some(CiError::SpawnFailed { stage }),
                };
            }
        }
    }
}

/// Feeding `m` successes to a run that has not failed and has at least `m`
/// commands left launches the next `m` commands in order, then goes on from
/// the run that has launched them.
proof fn lemma_drive_successes(e: ExecView, outcomes: Seq<StageOutcome>, m: nat)
    requires
        e.failure is None,
        e.launched + m <= e.commands.len(),
        m <= outcomes.len(),
        forall|i: int| 0 <= i < m ==> outcomes[i] == StageOutcome::Succeeded,
    ensures
        ({
            let after = ExecView {
                commands: e.commands,
                setup_len: e.setup_len,
                launched: e.launched + m,
                failure: None,
            };
            let rest = drive(after, outcomes.subrange(m as int, outcomes.len() as int));
            drive(e, outcomes) == (rest.0, Seq::new(m, |i: int| e.launched + i as nat) + rest.1)
        }),
    decreases m,
{
    if m == 0 {
        assert(outcomes.subrange(0, outcomes.len() as int) =~= outcomes);
        assert(Seq::new(0, |i: int| e.launched + i as nat) + drive(e, outcomes).1 =~= drive(e, outcomes).1);
    } else {
        let next = e.record(outcomes[0]);
        let tail = outcomes.drop_first();
        lemma_drive_successes(next, tail, (m - 1) as nat);
        assert(tail.subrange(m - 1, tail.len() as int) =~= outcomes.subrange(m as int, outcomes.len() as int));
        let after = ExecView {
            commands: e.commands,
            setup_len: e.setup_len,
            launched: e.launched + m,
            failure: None,
        };
        let rest = drive(after, outcomes.subrange(m as int, outcomes.len() as int));
        assert(seq![e.launched] + (Seq::new((m - 1) as nat, |i: int| next.launched + i as nat) + rest.1)
            =~= Seq::new(m, |i: int| e.launched + i as nat) + rest.1);
    }
}

/// A run of a pipeline whose commands all succeed launches each set-up
/// command and then each stage once, in order, and ends in success.
pub proof fn lemma_all_succeed(step: StepView, outcomes: Seq<StageOutcome>)
    requires
        outcomes.len() == step.setup.len() + step.stages.len(),
        forall|i: int| 0 <= i < outcomes.len() ==> outcomes[i] == StageOutcome::Succeeded,
    ensures
        drive(step.start(), outcomes).1 == Seq::new(outcomes.len(), |i: int| i as nat),
        drive(step.start(), outcomes).0.next_action() == Action::Finish(Ok(())),
{
    let e = step.start();
    let n = outcomes.len();
    lemma_drive_successes(e, outcomes, n);
    let after = ExecView { commands: e.commands, setup_len: e.setup_len, launched: n, failure: None };
    let rest = outcomes.subrange(n as int, n as int);
    assert(drive(after, rest) == (after, Seq::<nat>::empty()));
    assert(Seq::new(n, |i: int| e.launched + i as nat) + Seq::<nat>::empty() =~= Seq::new(n, |i: int| i as nat));
}

/// When stage `k` is the first command to fail, the stages after it are
/// never launched, and the run ends with that stage's failure.
pub proof fn lemma_failure_stops(step: StepView, outcomes: Seq<StageOutcome>, k: nat)
    requires
        k < step.stages.len(),
        step.setup.len() + k < outcomes.len(),
        forall|i: int| 0 <= i < step.setup.len() + k ==> outcomes[i] == StageOutcome::Succeeded,
        outcomes[step.setup.len() + k as int] != StageOutcome::Succeeded,
    ensures
        drive(step.start(), outcomes).1 == Seq::new(step.setup.len() + k + 1, |i: int| i as nat),
        drive(step.start(), outcomes).0.next_action() == Action::Finish(
            Err(failure_of(k, outcomes[step.setup.len() + k as int])),
        ),
{
    let e = step.start();
    let j = step.setup.len() + k;
    lemma_drive_successes(e, outcomes, j);
    let after = ExecView { commands: e.commands, setup_len: e.setup_len, launched: j, failure: None };
    let rest = outcomes.subrange(j as int, outcomes.len() as int);
    let failed = after.record(rest[0]);
    assert(drive(failed, rest.drop_first()) == (failed, Seq::<nat>::empty()));
    assert(drive(after, rest) == (failed, seq![j]));
    assert(Seq::new(j, |i: int| e.launched + i as nat) + seq![j] =~= Seq::new(j + 1, |i: int| i as nat));
}

/// A pipeline with neither set-up commands nor stages ends in success at
/// once, launching nothing.
pub proof fn lemma_empty_pipeline(step: StepView, outcomes: Seq<StageOutcome>)
    requires
        step.setup.len() == 0,
        step.stages.len() == 0,
    ensures
        step.start().next_action() == Action::Finish(Ok(())),
        drive(step.start(), outcomes).1 == Seq::<nat>::empty(),
{
}

/// Every stage of a started run carries the pipeline's toolchain under the
/// reserved variable, and keeps every other override it had; the set-up
/// commands are launched exactly as given.
pub proof fn lemma_toolchain_everywhere(step: StepView, i: int)
    requires
        0 <= i < step.stages.len(),
    ensures
        step.start().commands[step.setup.len() + i].env().contains_key(TOOLCHAIN_VAR@),
        step.start().commands[step.setup.len() + i].env()[TOOLCHAIN_VAR@] == step.toolchain.spec_name(),
        forall|k: Seq<char>|
            k != TOOLCHAIN_VAR@ ==> (#[trigger] step.start().commands[step.setup.len() + i].env().contains_key(k)
                <==> step.stages[i].env().contains_key(k)) && step.start().commands[step.setup.len()
                + i].env()[k] == step.stages[i].env()[k],
        forall|j: int| 0 <= j < step.setup.len() ==> #[trigger] step.start().commands[j] == step.setup[j],
{
    let c = step.stages[i];
    let s = step.start().commands[step.setup.len() + i];
    assert(s == with_toolchain(c, step.toolchain));
    assert(s.envs.drop_last() =~= c.envs);
}

} // verus!
