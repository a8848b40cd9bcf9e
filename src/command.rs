use vstd::prelude::*;

verus! {

/// The mathematical picture of one external invocation.
pub struct CommandView {
    pub program: Seq<char>,
    pub args: Seq<Seq<char>>,
    /// Environment overrides in the order they were given.
    pub envs: Seq<(Seq<char>, Seq<char>)>,
    pub cwd: Option<Seq<char>>,
}

/// The environment overrides as a mapping: a later entry for a name
/// replaces an earlier one.
pub open spec fn env_map(envs: Seq<(Seq<char>, Seq<char>)>) -> Map<Seq<char>, Seq<char>>
    decreases envs.len(),
{
    if envs.len() == 0 {
        Map::empty()
    } else {
        env_map(envs.drop_last()).insert(envs.last().0, envs.last().1)
    }
}

pub open spec fn str_views(s: Seq<&str>) -> Seq<Seq<char>> {
    s.map_values(|a: &str| a@)
}

pub open spec fn pair_views(s: Seq<(&str, &str)>) -> Seq<(Seq<char>, Seq<char>)> {
    s.map_values(|p: (&str, &str)| (p.0@, p.1@))
}

impl CommandView {
    pub open spec fn new(program: Seq<char>) -> CommandView {
        CommandView { program, args: Seq::empty(), envs: Seq::empty(), cwd: None }
    }

    pub open spec fn with_args(self, args: Seq<Seq<char>>) -> CommandView {
        CommandView { program: self.program, args: self.args + args, envs: self.envs, cwd: self.cwd }
    }

    pub open spec fn with_envs(self, envs: Seq<(Seq<char>, Seq<char>)>) -> CommandView {
        CommandView { program: self.program, args: self.args, envs: self.envs + envs, cwd: self.cwd }
    }

    pub open spec fn with_cwd(self, cwd: Seq<char>) -> CommandView {
        CommandView { program: self.program, args: self.args, envs: self.envs, cwd: Some(cwd) }
    }

    /// The effective overrides that the child process receives.
    pub open spec fn env(self) -> Map<Seq<char>, Seq<char>> {
        env_map(self.envs)
    }
}

/// One configuration call on a builder, as data.
pub enum BuilderCall {
    Args(Seq<Seq<char>>),
    Envs(Seq<(Seq<char>, Seq<char>)>),
    CurrentDir(Seq<char>),
}

impl CommandView {
    pub open spec fn apply(self, call: BuilderCall) -> CommandView {
        match call {
            BuilderCall::Args(a) => self.with_args(a),
            BuilderCall::Envs(e) => self.with_envs(e),
            BuilderCall::CurrentDir(d) => self.with_cwd(d),
        }
    }

    /// The command after `calls`, made in order.
    pub open spec fn apply_all(self, calls: Seq<BuilderCall>) -> CommandView
        decreases calls.len(),
    {
        if calls.len() == 0 {
            self
        } else {
            self.apply_all(calls.drop_last()).apply(calls.last())
        }
    }
}

/// The arguments of all `Args` calls among `calls`, joined in call order.
pub open spec fn args_of(calls: Seq<BuilderCall>) -> Seq<Seq<char>>
    decreases calls.len(),
{
    if calls.len() == 0 {
        Seq::empty()
    } else {
        args_of(calls.drop_last()) + match calls.last() {
            BuilderCall::Args(a) => a,
            _ => Seq::empty(),
        }
    }
}

/// The entries of all `Envs` calls among `calls`, joined in call order.
pub open spec fn envs_of(calls: Seq<BuilderCall>) -> Seq<(Seq<char>, Seq<char>)>
    decreases calls.len(),
{
    if calls.len() == 0 {
        Seq::empty()
    } else {
        envs_of(calls.drop_last()) + match calls.last() {
            BuilderCall::Envs(e) => e,
            _ => Seq::empty(),
        }
    }
}

/// Whatever the calls made, a command's arguments are those of its `Args`
/// calls joined in call order, and its override list is the entries of its
/// `Envs` calls joined in call order.
pub proof fn lemma_calls_append(base: CommandView, calls: Seq<BuilderCall>)
    ensures
        base.apply_all(calls).program == base.program,
        base.apply_all(calls).args == base.args + args_of(calls),
        base.apply_all(calls).envs == base.envs + envs_of(calls),
    decreases calls.len(),
{
    if calls.len() == 0 {
        assert(base.args + Seq::empty() =~= base.args);
        assert(base.envs + Seq::empty() =~= base.envs);
    } else {
        lemma_calls_append(base, calls.drop_last());
        let prev = base.apply_all(calls.drop_last());
        match calls.last() {
            BuilderCall::Args(a) => {
                assert(prev.args + a =~= base.args + args_of(calls));
                assert(prev.envs =~= base.envs + envs_of(calls));
            },
            BuilderCall::Envs(e) => {
                assert(prev.args =~= base.args + args_of(calls));
                assert(prev.envs + e =~= base.envs + envs_of(calls));
            },
            BuilderCall::CurrentDir(d) => {
                assert(prev.args =~= base.args + args_of(calls));
                assert(prev.envs =~= base.envs + envs_of(calls));
            },
        }
    }
}

/// A name is overridden exactly when some entry sets it, and its value is
/// the one of the last entry that sets it.
pub proof fn lemma_env_last_write_wins(envs: Seq<(Seq<char>, Seq<char>)>, i: int)
    requires
        0 <= i < envs.len(),
        forall|j: int| i < j < envs.len() ==> #[trigger] envs[j].0 != envs[i].0,
    ensures
        env_map(envs).contains_key(envs[i].0),
        env_map(envs)[envs[i].0] == envs[i].1,
    decreases envs.len(),
{
    if i < envs.len() - 1 {
        lemma_env_last_write_wins(envs.drop_last(), i);
    }
}

/// A name that no entry sets is not overridden.
pub proof fn lemma_env_unset(envs: Seq<(Seq<char>, Seq<char>)>, k: Seq<char>)
    requires
        forall|j: int| 0 <= j < envs.len() ==> #[trigger] envs[j].0 != k,
    ensures
        !env_map(envs).contains_key(k),
    decreases envs.len(),
{
    if envs.len() > 0 {
        lemma_env_unset(envs.drop_last(), k);
    }
}

/// One external invocation: program, arguments, environment overrides and
/// an optional working directory.
pub struct CommandSpec {
    program: String,
    args: Vec<String>,
    envs: Vec<(String, String)>,
    cwd: Option<String>,
}

impl View for CommandSpec {
    type V = CommandView;

    closed spec fn view(&self) -> CommandView {
        CommandView {
            program: self.program@,
            args: self.args@.map_values(|a: String| a@),
            envs: self.envs@.map_values(|p: (String, String)| (p.0@, p.1@)),
            cwd: match self.cwd {
                Some(d) => Some(d@),
                None => None,
            },
        }
    }
}

impl CommandSpec {
    pub(crate) fn new(program: &str) -> (r: CommandSpec)
        ensures
            r@ == CommandView::new(program@),
    {
        let r = CommandSpec { program: program.to_owned(), args: Vec::new(), envs: Vec::new(), cwd: None };
        assert(r@.args =~= Seq::empty());
        assert(r@.envs =~= Seq::empty());
        r
    }

    pub(crate) fn push_args(&mut self, args: &[&str])
        ensures
            final(self)@ == old(self)@.with_args(str_views(args@)),
    {
        let ghost start = self@;
        let mut i: usize = 0;
        while i < args.len()
            invariant
                i <= args@.len(),
                self@ == start.with_args(str_views(args@.subrange(0, i as int))),
            decreases args@.len() - i,
        {
            let a = args[i].to_owned();
            let ghost before = self.args@;
            self.args.push(a);
            proof {
                assert(self.args@.map_values(|a: String| a@) =~= before.map_values(|a: String| a@).push(args@[i as int]@));
                assert(str_views(args@.subrange(0, i + 1)) =~= str_views(args@.subrange(0, i as int)).push(args@[i as int]@));
                assert(self@.args =~= start.args + str_views(args@.subrange(0, i + 1)));
            }
            i = i + 1;
        }
        assert(args@.subrange(0, args@.len() as int) =~= args@);
    }

    pub(crate) fn push_envs(&mut self, envs: &[(&str, &str)])
        ensures
            final(self)@ == old(self)@.with_envs(pair_views(envs@)),
    {
        let ghost start = self@;
        let mut i: usize = 0;
        while i < envs.len()
            invariant
                i <= envs@.len(),
                self@ == start.with_envs(pair_views(envs@.subrange(0, i as int))),
            decreases envs@.len() - i,
        {
            let (k, v) = envs[i];
            let entry = (k.to_owned(), v.to_owned());
            let ghost before = self.envs@;
            self.envs.push(entry);
            proof {
                let p = envs@[i as int];
                assert(self.envs@.map_values(|p: (String, String)| (p.0@, p.1@)) =~= before.map_values(
                    |p: (String, String)| (p.0@, p.1@),
                ).push((p.0@, p.1@)));
                assert(pair_views(envs@.subrange(0, i + 1)) =~= pair_views(envs@.subrange(0, i as int)).push((p.0@, p.1@)));
                assert(self@.envs =~= start.envs + pair_views(envs@.subrange(0, i + 1)));
            }
            i = i + 1;
        }
        assert(envs@.subrange(0, envs@.len() as int) =~= envs@);
    }

    pub(crate) fn set_cwd(&mut self, cwd: &str)
        ensures
            final(self)@ == old(self)@.with_cwd(cwd@),
    {
        self.cwd = Some(cwd.to_owned());
    }

    pub fn program(&self) -> (r: &str)
        ensures
            r@ == self@.program,
    {
        self.program.as_str()
    }

    pub fn args(&self) -> (r: &[String])
        ensures
            r@.map_values(|a: String| a@) == self@.args,
    {
        self.args.as_slice()
    }

    /// The overrides in the order given; applying them in turn yields `env`.
    pub fn envs(&self) -> (r: &[(String, String)])
        ensures
            r@.map_values(|p: (String, String)| (p.0@, p.1@)) == self@.envs,
    {
        self.envs.as_slice()
    }

    pub fn cwd(&self) -> (r: Option<&str>)
        ensures
            self@.cwd is None ==> r is None,
            self@.cwd matches Some(d) ==> r matches Some(c) && c@ == d,
    {
        match &self.cwd {
            Some(d) => Some(d.as_str()),
            None => None,
        }
    }
}

/// Consuming builder: every configuration call takes the builder and hands
/// back the updated one.
pub struct TokioCIStageBuilder {
    cmd: CommandSpec,
}

impl View for TokioCIStageBuilder {
    type V = CommandView;

    closed spec fn view(&self) -> CommandView {
        self.cmd@
    }
}

impl TokioCIStageBuilder {
    /// A builder for `program` with no arguments, no overrides and no
    /// working directory.
    pub fn new(program: &str) -> (r: Self)
        ensures
            r@ == CommandView::new(program@),
    {
        TokioCIStageBuilder { cmd: CommandSpec::new(program) }
    }

    /// Appends `args` after the arguments already given, in order.
    pub fn args(self, args: &[&str]) -> (r: Self)
        ensures
            r@ == self@.with_args(str_views(args@)),
    {
        let mut new_self = self;
        new_self.cmd.push_args(args);
        new_self
    }

    /// Adds overrides; for a name given twice the later value wins.
    pub fn envs(self, envs: &[(&str, &str)]) -> (r: Self)
        ensures
            r@ == self@.with_envs(pair_views(envs@)),
    {
        let mut new_self = self;
        new_self.cmd.push_envs(envs);
        new_self
    }

    /// Sets, or replaces, the working directory.
    pub fn current_dir(self, cwd: &str) -> (r: Self)
        ensures
            r@ == self@.with_cwd(cwd@),
    {
        let mut new_self = self;
        new_self.cmd.set_cwd(cwd);
        new_self
    }

    pub fn build(self) -> (r: TokioCIStage)
        ensures
            r@ == self@,
    {
        TokioCIStage { cmd: self.cmd }
    }
}

/// A built command, ready to run.
pub struct TokioCIStage {
    cmd: CommandSpec,
}

impl View for TokioCIStage {
    type V = CommandView;

    closed spec fn view(&self) -> CommandView {
        self.cmd@
    }
}

impl TokioCIStage {
    pub fn command(&self) -> (r: &CommandSpec)
        ensures
            r@ == self@,
    {
        &self.cmd
    }

    pub fn into_command(self) -> (r: CommandSpec)
        ensures
            r@ == self@,
    {
        self.cmd
    }

    /// Adds one override after those the stage already has.
    pub(crate) fn add_env(&mut self, name: &str, value: &str)
        ensures
            final(self)@ == old(self)@.with_envs(seq![(name@, value@)]),
    {
        let pair = [(name, value)];
        self.cmd.push_envs(pair.as_slice());
        assert(pair_views(pair@) =~= seq![(name@, value@)]);
    }
}

} // verus!
