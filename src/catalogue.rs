use crate::command::{pair_views, str_views, CommandView, TokioCIStage, TokioCIStageBuilder};
use crate::pipeline::{StepView, TokioCIStep, ToolChain};
use crate::targets::Target;
use vstd::prelude::*;
use vstd::string::*;

verus! {

/// Installs cargo-hack, which the feature checks run through.
pub const INSTALL_CARGO_HACK: &'static str = "cargo install cargo-hack";

pub const INSTALL_RUSTFMT: &'static str = "rustup component add rustfmt";

pub const INSTALL_CLIPPY: &'static str = "rustup component add clippy";

/// Checks the formatting of every Rust file below the current directory.
pub const FMT_CHECK: &'static str = "if ! rustfmt --check --edition 2018 $(find . -name '*.rs' -print); then\n        printf \"Please run \\`rustfmt --edition 2018 \\$(find . -name '*.rs' -print)\\` to fix rustfmt errors.\\nSee CONTRIBUTING.md for more details.\\n\" >&2\n        exit 1\n        fi";

/// A cargo invocation before any recipe.
pub open spec fn cargo() -> CommandView {
    CommandView::new("cargo"@)
}

/// `sh -c script`.
pub open spec fn shell(script: Seq<char>) -> CommandView {
    CommandView::new("sh"@).with_args(seq!["-c"@, script])
}

/// What each recipe adds to a command, as data.
impl CommandView {
    pub open spec fn test_features_full(self) -> CommandView {
        self.with_cwd("tokio"@).with_args(seq!["test"@, "--features"@, "full"@])
    }

    pub open spec fn test_all_features(self) -> CommandView {
        self.with_args(seq!["test"@, "--workspace"@, "--all-features"@])
    }

    pub open spec fn check_full_parking_lot(self) -> CommandView {
        self.with_cwd("tokio"@).with_args(seq!["test"@, "--features"@, "full,parking_lot"@])
    }

    pub open spec fn test_integration_each_feature(self) -> CommandView {
        self.with_cwd("tests-integration"@).with_args(seq!["hack"@, "test"@, "--each-feature"@])
    }

    pub open spec fn test_build_each_feature(self) -> CommandView {
        self.with_cwd("tests-build"@).with_args(seq!["hack"@, "test"@, "--each-feature"@])
    }

    pub open spec fn test_full_unstable(self) -> CommandView {
        self
            .with_cwd("tokio"@)
            .with_args(seq!["test"@, "--features"@, "full"@])
            .with_envs(seq![("RUSTFLAGS"@, "--cfg tokio_unstable -Dwarnings"@)])
    }

    pub open spec fn miri(self) -> CommandView {
        self
            .with_cwd("tokio"@)
            .with_args(seq!["miri"@, "test"@, "--features"@, "rt,rt-multi-thread,sync"@, "task"@])
    }

    pub open spec fn asan(self) -> CommandView {
        self
            .with_cwd("tokio"@)
            .with_args(
                seq![
                    "test"@,
                    "--all-features"@,
                    "--target"@,
                    "x86_64-unknown-linux-gnu"@,
                    "--lib"@,
                    "--"@,
                    "--test-threads"@,
                    "1"@,
                ],
            )
            .with_envs(
                seq![
                    ("RUSTFLAGS"@, "-Z sanitizer=address"@),
                    ("ASAN_OPTIONS"@, "detect_leaks=0"@),
                ],
            )
    }

    pub open spec fn features_check_each_feature(self) -> CommandView {
        self
            .with_args(
                seq![
                    "hack"@,
                    "check"@,
                    "--all"@,
                    "--each-feature"@,
                    "-Z"@,
                    "avoid-dev-deps"@,
                ],
            )
            .with_envs(seq![("RUSTFLAGS"@, "--cfg tokio_unstable -Dwarnings"@)])
    }

    pub open spec fn features_check_each_feature_unstable(self) -> CommandView {
        self
            .with_args(
                seq![
                    "hack"@,
                    "check"@,
                    "--all"@,
                    "--each-feature"@,
                    "-Z"@,
                    "avoid-dev-deps"@,
                ],
            )
            .with_envs(seq![("RUSTFLAGS"@, "--cfg tokio_unstable -Dwarnings"@)])
    }

    pub open spec fn minrust_test_workspace_all_features(self) -> CommandView {
        self.with_args(seq!["check"@, "--workspace"@, "--all-features"@])
    }

    pub open spec fn clippy(self) -> CommandView {
        self.with_args(seq!["clippy"@, "--all"@, "--tests"@])
    }

    pub open spec fn docs(self) -> CommandView {
        self
            .with_args(seq!["doc"@, "--lib"@, "--no-deps"@, "--all-features"@])
            .with_envs(seq![("RUSTFLAGS"@, "--cfg docsrs"@)])
    }

    pub open spec fn cross(self, target: Target) -> CommandView {
        self.with_args(seq!["check"@, "--workspace"@, "--target"@, target.spec_triple()])
    }

    pub open spec fn loom(self, scope: Seq<char>) -> CommandView {
        self.with_cwd("tokio"@).with_args(
            seq!["test"@, "--lib"@, "--release"@, "--features"@, "full"@, "--"@, "--nocapture"@, scope],
        ).with_envs(seq![("RUSTFLAGS"@, "--cfg loom --cfg tokio_unstable -Dwarnings"@)])
    }
}

/// Recipes: each adds the arguments, directory and overrides of one CI
/// command to a builder.
impl TokioCIStageBuilder {
    pub fn test_features_full(self) -> (r: Self)
        ensures
            r@ == self@.test_features_full(),
    {
        let a = ["test", "--features", "full"];
        assert(str_views(a@) =~= seq!["test"@, "--features"@, "full"@]);
        self.current_dir("tokio").args(a.as_slice())
    }

    pub fn test_all_features(self) -> (r: Self)
        ensures
            r@ == self@.test_all_features(),
    {
        let a = ["test", "--workspace", "--all-features"];
        assert(str_views(a@) =~= seq!["test"@, "--workspace"@, "--all-features"@]);
        self.args(a.as_slice())
    }

    pub fn check_full_parking_lot(self) -> (r: Self)
        ensures
            r@ == self@.check_full_parking_lot(),
    {
        let a = ["test", "--features", "full,parking_lot"];
        assert(str_views(a@) =~= seq!["test"@, "--features"@, "full,parking_lot"@]);
        self.current_dir("tokio").args(a.as_slice())
    }

    pub fn test_integration_each_feature(self) -> (r: Self)
        ensures
            r@ == self@.test_integration_each_feature(),
    {
        let a = ["hack", "test", "--each-feature"];
        assert(str_views(a@) =~= seq!["hack"@, "test"@, "--each-feature"@]);
        self.current_dir("tests-integration").args(a.as_slice())
    }

    pub fn test_build_each_feature(self) -> (r: Self)
        ensures
            r@ == self@.test_build_each_feature(),
    {
        let a = ["hack", "test", "--each-feature"];
        assert(str_views(a@) =~= seq!["hack"@, "test"@, "--each-feature"@]);
        self.current_dir("tests-build").args(a.as_slice())
    }

    pub fn test_full_unstable(self) -> (r: Self)
        ensures
            r@ == self@.test_full_unstable(),
    {
        let a = ["test", "--features", "full"];
        assert(str_views(a@) =~= seq!["test"@, "--features"@, "full"@]);
        let e = [("RUSTFLAGS", "--cfg tokio_unstable -Dwarnings")];
        assert(pair_views(e@) =~= seq![("RUSTFLAGS"@, "--cfg tokio_unstable -Dwarnings"@)]);
        self.current_dir("tokio").args(a.as_slice()).envs(e.as_slice())
    }

    pub fn miri(self) -> (r: Self)
        ensures
            r@ == self@.miri(),
    {
        let a = ["miri", "test", "--features", "rt,rt-multi-thread,sync", "task"];
        assert(str_views(a@) =~= seq!["miri"@, "test"@, "--features"@, "rt,rt-multi-thread,sync"@, "task"@]);
        self.current_dir("tokio").args(a.as_slice())
    }

    pub fn asan(self) -> (r: Self)
        ensures
            r@ == self@.asan(),
    {
        let target = Target::x86_64_unknown_linux_gnu.triple();
        let a = ["test", "--all-features", "--target", target, "--lib", "--", "--test-threads", "1"];
        assert(str_views(a@) =~= seq![
            "test"@,
            "--all-features"@,
            "--target"@,
            "x86_64-unknown-linux-gnu"@,
            "--lib"@,
            "--"@,
            "--test-threads"@,
            "1"@,
        ]);
        let e = [("RUSTFLAGS", "-Z sanitizer=address"), ("ASAN_OPTIONS", "detect_leaks=0")];
        assert(pair_views(e@) =~= seq![
            ("RUSTFLAGS"@, "-Z sanitizer=address"@),
            ("ASAN_OPTIONS"@, "detect_leaks=0"@),
        ]);
        self.current_dir("tokio").args(a.as_slice()).envs(e.as_slice())
    }

    pub fn features_check_each_feature(self) -> (r: Self)
        ensures
            r@ == self@.features_check_each_feature(),
    {
        let a = ["hack", "check", "--all", "--each-feature", "-Z", "avoid-dev-deps"];
        assert(str_views(a@) =~= seq![
            "hack"@,
            "check"@,
            "--all"@,
            "--each-feature"@,
            "-Z"@,
            "avoid-dev-deps"@,
        ]);
        let e = [("RUSTFLAGS", "--cfg tokio_unstable -Dwarnings")];
        assert(pair_views(e@) =~= seq![("RUSTFLAGS"@, "--cfg tokio_unstable -Dwarnings"@)]);
        self.args(a.as_slice()).envs(e.as_slice())
    }

    pub fn features_check_each_feature_unstable(self) -> (r: Self)
        ensures
            r@ == self@.features_check_each_feature_unstable(),
    {
        let a = ["hack", "check", "--all", "--each-feature", "-Z", "avoid-dev-deps"];
        assert(str_views(a@) =~= seq![
            "hack"@,
            "check"@,
            "--all"@,
            "--each-feature"@,
            "-Z"@,
            "avoid-dev-deps"@,
        ]);
        let e = [("RUSTFLAGS", "--cfg tokio_unstable -Dwarnings")];
        assert(pair_views(e@) =~= seq![("RUSTFLAGS"@, "--cfg tokio_unstable -Dwarnings"@)]);
        self.args(a.as_slice()).envs(e.as_slice())
    }

    pub fn minrust_test_workspace_all_features(self) -> (r: Self)
        ensures
            r@ == self@.minrust_test_workspace_all_features(),
    {
        let a = ["check", "--workspace", "--all-features"];
        assert(str_views(a@) =~= seq!["check"@, "--workspace"@, "--all-features"@]);
        self.args(a.as_slice())
    }

    pub fn clippy(self) -> (r: Self)
        ensures
            r@ == self@.clippy(),
    {
        let a = ["clippy", "--all", "--tests"];
        assert(str_views(a@) =~= seq!["clippy"@, "--all"@, "--tests"@]);
        self.args(a.as_slice())
    }

    pub fn docs(self) -> (r: Self)
        ensures
            r@ == self@.docs(),
    {
        let a = ["doc", "--lib", "--no-deps", "--all-features"];
        assert(str_views(a@) =~= seq!["doc"@, "--lib"@, "--no-deps"@, "--all-features"@]);
        let e = [("RUSTFLAGS", "--cfg docsrs")];
        assert(pair_views(e@) =~= seq![("RUSTFLAGS"@, "--cfg docsrs"@)]);
        self.args(a.as_slice()).envs(e.as_slice())
    }

    /// A builder for `sh -c script`.
    pub fn shell(script: &str) -> (r: Self)
        ensures
            r@ == shell(script@),
    {
        let a = ["-c", script];
        assert(str_views(a@) =~= seq!["-c"@, script@]);
        TokioCIStageBuilder::new("sh").args(a.as_slice())
    }

    pub fn cross(self, target: Target) -> (r: Self)
        ensures
            r@ == self@.cross(target),
    {
        let a = ["check", "--workspace", "--target", target.triple()];
        assert(str_views(a@) =~= seq!["check"@, "--workspace"@, "--target"@, target.spec_triple()]);
        self.args(a.as_slice())
    }

    pub fn loom(self, scope: &str) -> (r: Self)
        ensures
            r@ == self@.loom(scope@),
    {
        let a = ["test", "--lib", "--release", "--features", "full", "--", "--nocapture", scope];
        assert(str_views(a@) =~= seq![
            "test"@,
            "--lib"@,
            "--release"@,
            "--features"@,
            "full"@,
            "--"@,
            "--nocapture"@,
            scope@,
        ]);
        let e = [("RUSTFLAGS", "--cfg loom --cfg tokio_unstable -Dwarnings")];
        assert(pair_views(e@) =~= seq![("RUSTFLAGS"@, "--cfg loom --cfg tokio_unstable -Dwarnings"@)]);
        self.current_dir("tokio").args(a.as_slice()).envs(e.as_slice())
    }
}

/// The targets that the cross check covers, in order.
pub open spec fn cross_targets() -> Seq<Target> {
    seq![
        Target::i686_unknown_linux_gnu,
        Target::powerpc_unknown_linux_gnu,
        Target::powerpc64_unknown_linux_gnu,
        Target::mips_unknown_linux_gnu,
        Target::arm_linux_androideabi,
    ]
}

/// The test filters that the loom runs use, in order.
pub open spec fn loom_scopes() -> Seq<Seq<char>> {
    seq![
        "--skip loom_pool"@,
        "loom_pool::group_a"@,
        "loom_pool::group_b"@,
        "loom_pool::group_c"@,
        "loom_pool::group_d"@,
    ]
}

pub open spec fn test_tokio_full_plan() -> StepView {
    StepView {
        toolchain: ToolChain::Stable,
        setup: Seq::empty(),
        stages: seq![
            cargo().test_features_full(),
            cargo().check_full_parking_lot(),
            cargo().test_all_features(),
            cargo().test_integration_each_feature(),
            cargo().test_build_each_feature(),
        ],
    }
}

pub open spec fn test_tokio_full_unstable_plan() -> StepView {
    StepView { toolchain: ToolChain::Stable, setup: Seq::empty(), stages: seq![cargo().test_full_unstable()] }
}

pub open spec fn miri_plan() -> StepView {
    StepView { toolchain: ToolChain::Nightly, setup: Seq::empty(), stages: seq![cargo().miri()] }
}

pub open spec fn san_plan() -> StepView {
    StepView { toolchain: ToolChain::Nightly, setup: Seq::empty(), stages: seq![cargo().asan()] }
}

pub open spec fn cross_plan() -> StepView {
    StepView {
        toolchain: ToolChain::Stable,
        setup: Seq::empty(),
        stages: cross_targets().map_values(|t: Target| cargo().cross(t)),
    }
}

pub open spec fn features_plan() -> StepView {
    StepView {
        toolchain: ToolChain::Nightly,
        setup: seq![shell(INSTALL_CARGO_HACK@)],
        stages: seq![
            cargo().features_check_each_feature(),
            cargo().features_check_each_feature_unstable(),
        ],
    }
}

pub open spec fn minrust_plan() -> StepView {
    StepView {
        toolchain: ToolChain::Stable,
        setup: Seq::empty(),
        stages: seq![cargo().minrust_test_workspace_all_features()],
    }
}

/// Formatting has no stage: the install and the check both run with the
/// caller's toolchain.
pub open spec fn fmt_plan() -> StepView {
    StepView {
        toolchain: ToolChain::Stable,
        setup: seq![shell(INSTALL_RUSTFMT@), shell(FMT_CHECK@)],
        stages: Seq::empty(),
    }
}

pub open spec fn clippy_plan() -> StepView {
    StepView {
        toolchain: ToolChain::Stable,
        setup: seq![shell(INSTALL_CLIPPY@)],
        stages: seq![cargo().clippy()],
    }
}

pub open spec fn docs_plan() -> StepView {
    StepView { toolchain: ToolChain::Nightly, setup: Seq::empty(), stages: seq![cargo().docs()] }
}

pub open spec fn loom_plan() -> StepView {
    StepView {
        toolchain: ToolChain::Stable,
        setup: Seq::empty(),
        stages: loom_scopes().map_values(|s: Seq<char>| cargo().loom(s)),
    }
}

/// Every step of the catalogue, by the name the command line gives it.
pub open spec fn step_named(name: Seq<char>) -> Option<StepView> {
    if name == "test"@ {
        Some(test_tokio_full_plan())
    } else if name == "test-unstable"@ {
        Some(test_tokio_full_unstable_plan())
    } else if name == "miri"@ {
        Some(miri_plan())
    } else if name == "san"@ {
        Some(san_plan())
    } else if name == "cross"@ {
        Some(cross_plan())
    } else if name == "features"@ {
        Some(features_plan())
    } else if name == "minrust"@ {
        Some(minrust_plan())
    } else if name == "fmt"@ {
        Some(fmt_plan())
    } else if name == "clippy"@ {
        Some(clippy_plan())
    } else if name == "docs"@ {
        Some(docs_plan())
    } else if name == "loom"@ {
        Some(loom_plan())
    } else {
        None
    }
}

/// Whether two texts hold the same characters.
fn same_text(a: &str, b: &str) -> (r: bool)
    ensures
        r == (a@ == b@),
{
    let n = a.unicode_len();
    if n != b.unicode_len() {
        return false;
    }
    let mut i: usize = 0;
    while i < n
        invariant
            n == a@.len(),
            n == b@.len(),
            i <= n,
            forall|j: int| 0 <= j < i ==> a@[j] == b@[j],
        decreases n - i,
    {
        if a.get_char(i) != b.get_char(i) {
            return false;
        }
        i = i + 1;
    }
    assert(a@ =~= b@);
    true
}

/// The names of the catalogue's steps.
pub fn step_names() -> (r: Vec<&'static str>)
    ensures
        forall|i: int| 0 <= i < r@.len() ==> (#[trigger] step_named(r@[i]@)) is Some,
        forall|name: Seq<char>|
            (#[trigger] step_named(name)) is Some ==> exists|i: int| 0 <= i < r@.len() && r@[i]@ == name,
{
    let mut r: Vec<&'static str> = Vec::new();
    r.push("test");
    r.push("test-unstable");
    r.push("miri");
    r.push("san");
    r.push("cross");
    r.push("features");
    r.push("minrust");
    r.push("fmt");
    r.push("clippy");
    r.push("docs");
    r.push("loom");
    assert forall|name: Seq<char>| (#[trigger] step_named(name)) is Some implies exists|i: int|
        0 <= i < r@.len() && r@[i]@ == name by {
        if name == "test"@ {
            assert(r@[0]@ == name);
        } else if name == "test-unstable"@ {
            assert(r@[1]@ == name);
        } else if name == "miri"@ {
            assert(r@[2]@ == name);
        } else if name == "san"@ {
            assert(r@[3]@ == name);
        } else if name == "cross"@ {
            assert(r@[4]@ == name);
        } else if name == "features"@ {
            assert(r@[5]@ == name);
        } else if name == "minrust"@ {
            assert(r@[6]@ == name);
        } else if name == "fmt"@ {
            assert(r@[7]@ == name);
        } else if name == "clippy"@ {
            assert(r@[8]@ == name);
        } else if name == "docs"@ {
            assert(r@[9]@ == name);
        } else {
            assert(r@[10]@ == name);
        }
    }
    r
}

/// The steps of the catalogue.
impl TokioCIStep {
    /// The step that the command line calls `name`, if there is one.
    pub fn named(name: &str) -> (r: Option<TokioCIStep>)
        ensures
            r is None <==> step_named(name@) is None,
            r matches Some(s) ==> step_named(name@) == Some(s@),
    {
        if same_text(name, "test") {
            Some(TokioCIStep::test_tokio_full())
        } else if same_text(name, "test-unstable") {
            Some(TokioCIStep::test_tokio_full_unstable())
        } else if same_text(name, "miri") {
            Some(TokioCIStep::miri())
        } else if same_text(name, "san") {
            Some(TokioCIStep::san())
        } else if same_text(name, "cross") {
            Some(TokioCIStep::cross())
        } else if same_text(name, "features") {
            Some(TokioCIStep::features())
        } else if same_text(name, "minrust") {
            Some(TokioCIStep::minrust())
        } else if same_text(name, "fmt") {
            Some(TokioCIStep::fmt())
        } else if same_text(name, "clippy") {
            Some(TokioCIStep::clippy())
        } else if same_text(name, "docs") {
            Some(TokioCIStep::docs())
        } else if same_text(name, "loom") {
            Some(TokioCIStep::loom())
        } else {
            None
        }
    }

    /// Runs the full test suite, the parking_lot variant, the workspace with all
    /// features, and the integration and build tests feature by feature.
    pub fn test_tokio_full() -> (r: TokioCIStep)
        ensures
            r@ == test_tokio_full_plan(),
    {
        let mut q: Vec<TokioCIStage> = Vec::new();
        q.push(TokioCIStageBuilder::new("cargo").test_features_full().build());
        q.push(TokioCIStageBuilder::new("cargo").check_full_parking_lot().build());
        q.push(TokioCIStageBuilder::new("cargo").test_all_features().build());
        q.push(TokioCIStageBuilder::new("cargo").test_integration_each_feature().build());
        q.push(TokioCIStageBuilder::new("cargo").test_build_each_feature().build());
        let r = TokioCIStep::new(q, ToolChain::Stable);
        assert(r@.stages =~= test_tokio_full_plan().stages);
        r
    }

    /// Runs the full test suite with the unstable cfg.
    pub fn test_tokio_full_unstable() -> (r: TokioCIStep)
        ensures
            r@ == test_tokio_full_unstable_plan(),
    {
        let mut q: Vec<TokioCIStage> = Vec::new();
        q.push(TokioCIStageBuilder::new("cargo").test_full_unstable().build());
        let r = TokioCIStep::new(q, ToolChain::Stable);
        assert(r@.stages =~= test_tokio_full_unstable_plan().stages);
        r
    }

    /// Runs the task tests under miri.
    pub fn miri() -> (r: TokioCIStep)
        ensures
            r@ == miri_plan(),
    {
        let mut q: Vec<TokioCIStage> = Vec::new();
        q.push(TokioCIStageBuilder::new("cargo").miri().build());
        let r = TokioCIStep::new(q, ToolChain::Nightly);
        assert(r@.stages =~= miri_plan().stages);
        r
    }

    /// Runs the library tests under the address sanitizer.
    pub fn san() -> (r: TokioCIStep)
        ensures
            r@ == san_plan(),
    {
        let mut q: Vec<TokioCIStage> = Vec::new();
        q.push(TokioCIStageBuilder::new("cargo").asan().build());
        let r = TokioCIStep::new(q, ToolChain::Nightly);
        assert(r@.stages =~= san_plan().stages);
        r
    }

    /// Installs cargo-hack, then checks every feature on its own. The
    /// install runs with no override, under the caller's toolchain.
    pub fn features() -> (r: TokioCIStep)
        ensures
            r@ == features_plan(),
            r@.setup.len() == 1,
            r@.start().commands[0].envs.len() == 0,
    {
        let mut setup: Vec<TokioCIStage> = Vec::new();
        setup.push(TokioCIStageBuilder::shell(INSTALL_CARGO_HACK).build());
        let mut q: Vec<TokioCIStage> = Vec::new();
        q.push(TokioCIStageBuilder::new("cargo").features_check_each_feature().build());
        q.push(TokioCIStageBuilder::new("cargo").features_check_each_feature_unstable().build());
        let r = TokioCIStep::with_setup(setup, q, ToolChain::Nightly);
        assert(r@.setup =~= features_plan().setup);
        assert(r@.stages =~= features_plan().stages);
        r
    }

    /// Checks the workspace with all features.
    pub fn minrust() -> (r: TokioCIStep)
        ensures
            r@ == minrust_plan(),
    {
        let mut q: Vec<TokioCIStage> = Vec::new();
        q.push(TokioCIStageBuilder::new("cargo").minrust_test_workspace_all_features().build());
        let r = TokioCIStep::new(q, ToolChain::Stable);
        assert(r@.stages =~= minrust_plan().stages);
        r
    }

    /// Installs rustfmt, then checks the formatting; both run with no
    /// override, under the caller's toolchain.
    pub fn fmt() -> (r: TokioCIStep)
        ensures
            r@ == fmt_plan(),
            r@.setup.len() == 2,
            r@.stages.len() == 0,
            r@.start().commands[0].envs.len() == 0,
            r@.start().commands[1].envs.len() == 0,
    {
        let mut setup: Vec<TokioCIStage> = Vec::new();
        setup.push(TokioCIStageBuilder::shell(INSTALL_RUSTFMT).build());
        setup.push(TokioCIStageBuilder::shell(FMT_CHECK).build());
        let r = TokioCIStep::with_setup(setup, Vec::new(), ToolChain::Stable);
        assert(r@.setup =~= fmt_plan().setup);
        assert(r@.stages =~= fmt_plan().stages);
        r
    }

    /// Installs clippy, then lints the workspace and its tests. The install
    /// runs with no override, under the caller's toolchain.
    pub fn clippy() -> (r: TokioCIStep)
        ensures
            r@ == clippy_plan(),
            r@.setup.len() == 1,
            r@.start().commands[0].envs.len() == 0,
    {
        let mut setup: Vec<TokioCIStage> = Vec::new();
        setup.push(TokioCIStageBuilder::shell(INSTALL_CLIPPY).build());
        let mut q: Vec<TokioCIStage> = Vec::new();
        q.push(TokioCIStageBuilder::new("cargo").clippy().build());
        let r = TokioCIStep::with_setup(setup, q, ToolChain::Stable);
        assert(r@.setup =~= clippy_plan().setup);
        assert(r@.stages =~= clippy_plan().stages);
        r
    }

    /// Builds the documentation as docs.rs does.
    pub fn docs() -> (r: TokioCIStep)
        ensures
            r@ == docs_plan(),
    {
        let mut q: Vec<TokioCIStage> = Vec::new();
        q.push(TokioCIStageBuilder::new("cargo").docs().build());
        let r = TokioCIStep::new(q, ToolChain::Nightly);
        assert(r@.stages =~= docs_plan().stages);
        r
    }

    /// Checks the workspace for each cross target.
    pub fn cross() -> (r: TokioCIStep)
        ensures
            r@ == cross_plan(),
    {
        let targets = [
            Target::i686_unknown_linux_gnu,
            Target::powerpc_unknown_linux_gnu,
            Target::powerpc64_unknown_linux_gnu,
            Target::mips_unknown_linux_gnu,
            Target::arm_linux_androideabi,
        ];
        assert(targets@ =~= cross_targets());
        let mut q: Vec<TokioCIStage> = Vec::new();
        let mut i: usize = 0;
        while i < targets.len()
            invariant
                i <= targets@.len(),
                targets@ == cross_targets(),
                q@.map_values(|s: TokioCIStage| s@) =~= cross_targets().subrange(0, i as int).map_values(
                    |t: Target| cargo().cross(t),
                ),
            decreases targets@.len() - i,
        {
            let stage = TokioCIStageBuilder::new("cargo").cross(targets[i]).build();
            let ghost before = q@;
            q.push(stage);
            proof {
                assert(q@.map_values(|s: TokioCIStage| s@) =~= before.map_values(|s: TokioCIStage| s@).push(
                    cargo().cross(cross_targets()[i as int]),
                ));
                assert(cross_targets().subrange(0, i + 1).map_values(|t: Target| cargo().cross(t))
                    =~= cross_targets().subrange(0, i as int).map_values(|t: Target| cargo().cross(t)).push(
                    cargo().cross(cross_targets()[i as int]),
                ));
            }
            i = i + 1;
        }
        assert(cross_targets().subrange(0, 5) =~= cross_targets());
        TokioCIStep::new(q, ToolChain::Stable)
    }

    /// Runs the loom models, one group at a time.
    pub fn loom() -> (r: TokioCIStep)
        ensures
            r@ == loom_plan(),
    {
        let scopes = [
            "--skip loom_pool",
            "loom_pool::group_a",
            "loom_pool::group_b",
            "loom_pool::group_c",
            "loom_pool::group_d",
        ];
        assert(str_views(scopes@) =~= loom_scopes());
        let mut q: Vec<TokioCIStage> = Vec::new();
        let mut i: usize = 0;
        while i < scopes.len()
            invariant
                i <= scopes@.len(),
                str_views(scopes@) == loom_scopes(),
                q@.map_values(|s: TokioCIStage| s@) =~= loom_scopes().subrange(0, i as int).map_values(
                    |s: Seq<char>| cargo().loom(s),
                ),
            decreases scopes@.len() - i,
        {
            assert(scopes@[i as int]@ == loom_scopes()[i as int]);
            let stage = TokioCIStageBuilder::new("cargo").loom(scopes[i]).build();
            let ghost before = q@;
            q.push(stage);
            proof {
                assert(q@.map_values(|s: TokioCIStage| s@) =~= before.map_values(|s: TokioCIStage| s@).push(
                    cargo().loom(loom_scopes()[i as int]),
                ));
                assert(loom_scopes().subrange(0, i + 1).map_values(|s: Seq<char>| cargo().loom(s))
                    =~= loom_scopes().subrange(0, i as int).map_values(|s: Seq<char>| cargo().loom(s)).push(
                    cargo().loom(loom_scopes()[i as int]),
                ));
            }
            i = i + 1;
        }
        assert(loom_scopes().subrange(0, 5) =~= loom_scopes());
        TokioCIStep::new(q, ToolChain::Stable)
    }
}

} // verus!
