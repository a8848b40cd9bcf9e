//! Local CI runner: commands built from composable parts, grouped into
//! pipelines that run under one toolchain and stop at the first failure.

mod catalogue;
mod cli;
mod command;
mod pipeline;
mod process;
mod targets;

pub use catalogue::{
    cargo, clippy_plan, cross_plan, cross_targets, docs_plan, features_plan, fmt_plan, loom_plan,
    loom_scopes, minrust_plan, miri_plan, san_plan, shell, step_named, step_names, test_tokio_full_plan,
    test_tokio_full_unstable_plan, FMT_CHECK, INSTALL_CARGO_HACK, INSTALL_CLIPPY, INSTALL_RUSTFMT,
};
pub use cli::CargoTokio;
pub use command::{
    args_of, env_map, envs_of, lemma_calls_append, lemma_env_last_write_wins, lemma_env_unset, pair_views,
    str_views, BuilderCall, CommandSpec, CommandView, TokioCIStage, TokioCIStageBuilder,
};
pub use pipeline::{
    drive, failure_of, lemma_all_succeed, lemma_empty_pipeline, lemma_failure_stops,
    lemma_toolchain_everywhere, with_toolchain, Action, CiError, ExecView, Execution, StageOutcome,
    StepView, Termination, TokioCIStep, ToolChain, TOOLCHAIN_VAR,
};
pub use process::{Process, ProcessBuilder};
pub use targets::Target;

use vstd::prelude::*;

verus! {

/// The run that a command line asks for, when it names a step of the catalogue.
pub open spec fn selected(cli: CargoTokio) -> Option<StepView> {
    match cli.spec_step() {
        Some(name) => step_named(name),
        None => None,
    }
}

/// Starts the CI run that the command line selects: the named step of the
/// catalogue, its toolchain applied to every stage and nothing launched yet.
/// The caller drives it to its end. A missing or unknown step name is an
/// `InvalidSelection`.
pub fn run(cli: &CargoTokio) -> (r: Result<Execution, CiError>)
    ensures
        selected(*cli) is None <==> r == Err::<Execution, CiError>(CiError::InvalidSelection),
        r is Ok <==> selected(*cli) is Some,
        r matches Ok(e) ==> e@ == selected(*cli)->0.start(),
{
    let step = match cli.step() {
        Some(name) => TokioCIStep::named(name),
        None => None,
    };
    match step {
        Some(s) => Ok(s.start()),
        None => Err(CiError::InvalidSelection),
    }
}

} // verus!
