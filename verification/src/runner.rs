//! One invocation from beginning to end.
//!
//! An [`Invocation`] settles its working directory, resolves the command,
//! launches the child, supervises it while both output streams are forwarded,
//! and finishes with the result. At each point it tells the caller what to do
//! ([`Invocation::action`]) and takes what came of it
//! ([`Invocation::on_event`]). A fault of the caller's own ends the invocation
//! at once: nothing is launched after a working directory that does not
//! resolve, and nothing is forwarded after a child that did not start.

use vstd::pervasive::unreached;
use vstd::prelude::*;
use crate::cwd::{cwd_candidate, get_cli_run_cwd};
use crate::exit::{
    conclude, exit_code_for, reported_exit_code, ChildStatus, Coordinator, ExecutionOutcome,
    ExitEvent, RunError, SpawnFault,
};
use crate::launch::{
    clone_entries, clone_policy, env_policy, launch_plan, overrides_of, EnvPolicy, LaunchPlan,
    Wiring,
};
use crate::path::{join, join_of, opt_text, Platform};
use crate::resolve::{opt_str, Asking, Resolution, ResolvedCommand, Resolver, Step};
use crate::text::texts;

verus! {

/// What an invocation is asked to run.
#[derive(Debug)]
pub struct InvocationRequest {
    /// The command, as a path or as a bare name.
    pub command: String,
    /// Its arguments, in order.
    pub args: Vec<String>,
    /// The configured working directory, where one is configured.
    pub cwd_override: Option<String>,
    /// Environment entries to add to the caller's; none means that the
    /// caller's environment is inherited unchanged.
    pub extra_env: Vec<(String, String)>,
}

/// What an invocation reads of the caller's surroundings, once.
#[derive(Debug)]
pub struct Host {
    pub platform: Platform,
    /// The home directory, where it is known.
    pub home: Option<String>,
    /// The caller's current directory.
    pub current_dir: String,
    /// The text of the search-path variable, where it is set.
    pub search_path: Option<String>,
}

/// The working directory of an invocation.
#[derive(Debug)]
pub enum WorkingDir {
    /// A directory that is still to be canonicalized.
    Candidate(String),
    /// A directory that exists, in canonical form.
    Canonical(String),
}

/// What the caller of an [`Invocation`] does next.
#[derive(Debug)]
pub enum Action {
    /// Canonicalize this directory; answer with [`Event::Canonicalized`].
    Canonicalize(String),
    /// Find out whether a file exists at this path; answer with
    /// [`Event::Probed`].
    Probe(String),
    /// Start the child as planned; answer with [`Event::Spawned`] or
    /// [`Event::SpawnFailed`].
    Spawn(LaunchPlan),
    /// Forward stdout and stderr of the child, each in a loop of its own, and
    /// wait for the child; report each of the three ends with
    /// [`Event::Ended`].
    Supervise,
    /// Report the result and exit with this code.
    Exit(i32),
}

/// What came of an action.
#[derive(Debug)]
pub enum Event {
    /// The canonical form of the directory, or none where it does not exist.
    Canonicalized(Option<String>),
    /// Whether the probed file exists.
    Probed(bool),
    /// The child runs.
    Spawned,
    /// The child could not be started.
    SpawnFailed(SpawnFault),
    /// The child or a forwarding loop has ended.
    Ended(ExitEvent),
}

/// Where an invocation stands.
pub enum Stage {
    /// The command is being resolved.
    Resolving(Resolver),
    /// The command is resolved and the child is to be started.
    Launching(ResolvedCommand),
    /// The child runs, or its output is still being forwarded.
    Running(Coordinator),
    /// The invocation is over.
    Finished(Result<ExecutionOutcome, RunError>),
}

/// One request to run a command to completion.
pub struct Invocation {
    cwd: WorkingDir,
    env: EnvPolicy,
    stage: Stage,
}

/// A runner with a working directory and extra environment entries of its
/// own.
#[derive(Debug)]
pub struct CliRun {
    pub platform: Platform,
    pub cwd: String,
    pub extra_envs: Vec<(String, String)>,
}

/// Whether `result` is what an invocation ends with once everything that
/// `end` records has been reported: success with exit code 0, the error that
/// carries the code otherwise, and in both the forwarding errors.
pub open spec fn concludes(result: Result<ExecutionOutcome, RunError>, end: Coordinator) -> bool {
    if end.final_code() == 0 {
        result matches Ok(outcome) && outcome.exit_code == 0 && outcome.forwarding_errors@
            == end.final_errors()
    } else {
        result matches Err(RunError::CommandFailed { code, forwarding_errors }) && code
            == end.final_code() && forwarding_errors@ == end.final_errors()
    }
}

/// The exit code that the caller reports for an invocation that ran to its
/// end is the exit code of its child, whatever happened to the forwarding
/// loops; and the invocation succeeds exactly when that code is 0.
pub proof fn lemma_reported_code_is_the_childs(
    result: Result<ExecutionOutcome, RunError>,
    end: Coordinator,
)
    requires
        concludes(result, end),
    ensures
        reported_exit_code(result) == end.final_code(),
        end.status matches Some(ChildStatus::Exited(code)) ==> reported_exit_code(result) == code,
        result is Ok <==> end.final_code() == 0,
{
}

/// Whether `stage` is where an invocation stands whose resolution has come
/// to `resolution`: still resolving while a question is open, and launching
/// the resolved command once none is.
pub open spec fn stage_holds(stage: Stage, resolution: Resolution) -> bool {
    match resolution.asking {
        Asking::Nothing(resolved) => stage matches Stage::Launching(command) && command@
            == resolved,
        _ => stage matches Stage::Resolving(resolver) && resolver@ == resolution,
    }
}

/// Whether `inv` is the beginning of the invocation of `command` with `args`
/// on `platform`, with the extra environment entries `extra`.
pub open spec fn begun(
    inv: Invocation,
    platform: Platform,
    extra: Seq<(String, String)>,
    command: Seq<char>,
    args: Seq<Seq<char>>,
    search_path: Option<Seq<char>>,
) -> bool {
    &&& overrides_of(inv.env()) == extra
    &&& (inv.env() is Inherit <==> extra.len() == 0)
    &&& stage_holds(inv.stage(), Resolution::start(platform, command, args, search_path))
}

fn settle(resolver: Resolver) -> (out: Stage)
    ensures
        stage_holds(out, resolver@),
        out matches Stage::Resolving(r) ==> r@.pending() is Some,
{
    match resolver.step() {
        Step::Probe(_) => Stage::Resolving(resolver),
        Step::Done(command) => Stage::Launching(command),
    }
}

fn begin(
    platform: Platform,
    cwd: WorkingDir,
    extra: Vec<(String, String)>,
    command: &str,
    args: Vec<String>,
    search_path: Option<&str>,
) -> (out: Invocation)
    ensures
        out.cwd() == cwd,
        begun(out, platform, extra@, command@, texts(args@), opt_str(search_path)),
{
    let resolver = Resolver::begin(platform, command, args, search_path);
    let stage = settle(resolver);
    Invocation { cwd, env: env_policy(extra), stage }
}

fn as_str_option(value: &Option<String>) -> (out: Option<&str>)
    ensures
        opt_str(out) == opt_text(*value),
{
    match value {
        Some(text) => Some(text.as_str()),
        None => None,
    }
}

impl Invocation {
    /// An invocation waits only for what can still happen, and has started
    /// no child in a directory that it has not settled.
    #[verifier::type_invariant]
    spec fn well_formed(self) -> bool {
        match self.stage {
            Stage::Resolving(r) => r@.pending() is Some,
            Stage::Launching(_) => true,
            Stage::Running(c) => !c.complete() && self.cwd is Canonical,
            Stage::Finished(_) => true,
        }
    }

    /// The working directory of the invocation.
    pub closed spec fn cwd(self) -> WorkingDir {
        self.cwd
    }

    /// Where the environment of the child comes from.
    pub closed spec fn env(self) -> EnvPolicy {
        self.env
    }

    /// Where the invocation stands.
    pub closed spec fn stage(self) -> Stage {
        self.stage
    }

    /// The working directory of the invocation.
    pub fn working_dir(&self) -> (out: &WorkingDir)
        ensures
            *out == self.cwd(),
    {
        &self.cwd
    }

    /// Whether the invocation is over.
    pub fn is_finished(&self) -> (out: bool)
        ensures
            out == (self.stage() is Finished),
    {
        match &self.stage {
            Stage::Finished(_) => true,
            _ => false,
        }
    }

    /// Begins the invocation that `request` asks for on `host`.
    pub fn begin(host: &Host, request: InvocationRequest) -> (out: Invocation)
        ensures
            out.cwd() matches WorkingDir::Candidate(dir) && dir@ == cwd_candidate(
                opt_text(request.cwd_override),
                opt_text(host.home),
                host.current_dir@,
            ),
            begun(
                out,
                host.platform,
                request.extra_env@,
                request.command@,
                texts(request.args@),
                opt_text(host.search_path),
            ),
    {
        let candidate = get_cli_run_cwd(
            as_str_option(&request.cwd_override),
            as_str_option(&host.home),
            host.current_dir.as_str(),
        );
        begin(
            host.platform,
            WorkingDir::Candidate(candidate),
            request.extra_env,
            request.command.as_str(),
            request.args,
            as_str_option(&host.search_path),
        )
    }

    /// What the caller does next: settle the working directory first, then
    /// whatever the stage asks for.
    pub fn action(&self) -> (out: Action)
        ensures
            match (self.stage(), self.cwd()) {
                (Stage::Finished(result), _) => out matches Action::Exit(code) && code
                    == reported_exit_code(result),
                (_, WorkingDir::Candidate(dir)) => out matches Action::Canonicalize(path) && path@
                    == dir@,
                (Stage::Resolving(r), _) => out matches Action::Probe(path) && r@.pending()
                    == Some(path@),
                (Stage::Launching(command), WorkingDir::Canonical(dir)) => {
                    &&& out matches Action::Spawn(plan)
                    &&& plan.executable@ == command.executable@
                    &&& texts(plan.args@) == texts(command.args@)
                    &&& plan.cwd@ == dir@
                    &&& overrides_of(plan.env) == overrides_of(self.env())
                    &&& (plan.env is Inherit <==> self.env() is Inherit)
                    &&& plan.stdout == Wiring::Piped
                    &&& plan.stderr == Wiring::Piped
                },
                (Stage::Running(_), _) => out is Supervise,
            },
    {
        proof {
            use_type_invariant(self);
        }
        match (&self.stage, &self.cwd) {
            (Stage::Finished(result), _) => Action::Exit(exit_code_for(result)),
            (_, WorkingDir::Candidate(dir)) => Action::Canonicalize(dir.clone()),
            (Stage::Resolving(resolver), _) => match resolver.step() {
                Step::Probe(path) => Action::Probe(path),
                Step::Done(_) => unreached(),
            },
            (Stage::Launching(command), WorkingDir::Canonical(dir)) => Action::Spawn(
                launch_plan(command.duplicate(), dir.clone(), clone_policy(&self.env)),
            ),
            (Stage::Running(_), _) => Action::Supervise,
        }
    }

    /// Takes what came of the last action. An event that does not answer the
    /// pending action changes nothing.
    pub fn on_event(self, event: Event) -> (out: Invocation)
        ensures
            out.env() == self.env(),
            match (self.stage(), self.cwd(), event) {
                (Stage::Finished(_), _, _) => out.stage() == self.stage() && out.cwd()
                    == self.cwd(),
                (_, WorkingDir::Candidate(dir), Event::Canonicalized(Some(path))) => out.stage()
                    == self.stage() && out.cwd() == WorkingDir::Canonical(path),
                (_, WorkingDir::Candidate(dir), Event::Canonicalized(None)) => {
                    &&& out.stage() matches Stage::Finished(
                        Err(RunError::PathResolution { path }),
                    )
                    &&& path == dir
                    &&& out.cwd() == self.cwd()
                },
                (_, WorkingDir::Candidate(_), _) => out.stage() == self.stage() && out.cwd()
                    == self.cwd(),
                (Stage::Resolving(r), _, Event::Probed(found)) => out.cwd() == self.cwd()
                    && stage_holds(out.stage(), r@.after(found)),
                (Stage::Launching(_), _, Event::Spawned) => out.stage() == Stage::Running(
                    Coordinator::start(),
                ) && out.cwd() == self.cwd(),
                (Stage::Launching(command), _, Event::SpawnFailed(fault)) => {
                    &&& out.stage() matches Stage::Finished(
                        Err(RunError::Spawn { executable, os_error, detail }),
                    )
                    &&& executable == command.executable
                    &&& os_error == fault.os_error
                    &&& detail == fault.detail
                    &&& out.cwd() == self.cwd()
                },
                (Stage::Running(c), _, Event::Ended(end)) => out.cwd() == self.cwd() && if c.after(
                    end,
                ).complete() {
                    out.stage() matches Stage::Finished(result) && concludes(
                        result,
                        c.after(end),
                    )
                } else {
                    out.stage() == Stage::Running(c.after(end))
                },
                _ => out.stage() == self.stage() && out.cwd() == self.cwd(),
            },
    {
        proof {
            use_type_invariant(&self);
        }
        let Invocation { cwd, env, stage } = self;
        match (stage, cwd, event) {
            (Stage::Finished(result), cwd, _) => Invocation {
                cwd,
                env,
                stage: Stage::Finished(result),
            },
            (stage, WorkingDir::Candidate(_), Event::Canonicalized(Some(path))) => Invocation {
                cwd: WorkingDir::Canonical(path),
                env,
                stage,
            },
            (_, WorkingDir::Candidate(dir), Event::Canonicalized(None)) => {
                let path = dir.clone();
                Invocation {
                    cwd: WorkingDir::Candidate(dir),
                    env,
                    stage: Stage::Finished(Err(RunError::PathResolution { path })),
                }
            },
            (stage, WorkingDir::Candidate(dir), _) => Invocation {
                cwd: WorkingDir::Candidate(dir),
                env,
                stage,
            },
            (Stage::Resolving(resolver), cwd, Event::Probed(found)) => Invocation {
                cwd,
                env,
                stage: settle(resolver.answer(found)),
            },
            (Stage::Launching(_), cwd, Event::Spawned) => Invocation {
                cwd,
                env,
                stage: Stage::Running(Coordinator::new()),
            },
            (Stage::Launching(command), cwd, Event::SpawnFailed(fault)) => Invocation {
                cwd,
                env,
                stage: Stage::Finished(
                    Err(
                        RunError::Spawn {
                            executable: command.executable,
                            os_error: fault.os_error,
                            detail: fault.detail,
                        },
                    ),
                ),
            },
            (Stage::Running(coordinator), cwd, Event::Ended(end)) => {
                let after = coordinator.record(end);
                match after.finalize() {
                    Some(outcome) => Invocation {
                        cwd,
                        env,
                        stage: Stage::Finished(conclude(outcome)),
                    },
                    None => Invocation { cwd, env, stage: Stage::Running(after) },
                }
            },
            (stage, cwd, _) => Invocation { cwd, env, stage },
        }
    }

    /// The result of the invocation, once it is over.
    pub fn result(self) -> (out: Option<Result<ExecutionOutcome, RunError>>)
        ensures
            match self.stage() {
                Stage::Finished(result) => out == Some(result),
                _ => out is None,
            },
    {
        match self.stage {
            Stage::Finished(result) => Some(result),
            _ => None,
        }
    }
}

impl CliRun {
    /// A runner on `platform` that starts children in the directory `cwd`,
    /// which exists and is in canonical form, with the caller's environment.
    pub fn new(platform: Platform, cwd: String) -> (out: CliRun)
        ensures
            out.platform == platform,
            out.cwd == cwd,
            out.extra_envs@.len() == 0,
    {
        CliRun { platform, cwd, extra_envs: Vec::new() }
    }

    /// The runner with `relative` taken relative to its working directory.
    /// The directory that comes out is still to be canonicalized.
    pub fn with_relative_cwd(self, relative: &str) -> (out: CliRun)
        ensures
            out.platform == self.platform,
            out.cwd@ == join_of(self.platform, self.cwd@, relative@),
            out.extra_envs == self.extra_envs,
    {
        let cwd = join(self.platform, self.cwd.as_str(), relative);
        CliRun { platform: self.platform, cwd, extra_envs: self.extra_envs }
    }

    /// The runner with `extra_envs` in place of its extra environment entries.
    pub fn with_extra_envs(self, extra_envs: Vec<(String, String)>) -> (out: CliRun)
        ensures
            out.platform == self.platform,
            out.cwd == self.cwd,
            out.extra_envs == extra_envs,
    {
        CliRun { platform: self.platform, cwd: self.cwd, extra_envs }
    }

    /// Begins the invocation of `command` with `args` in the runner's working
    /// directory. `search_path` is the text of the search-path variable,
    /// where it is set.
    pub fn run(&self, command: &str, args: Vec<String>, search_path: Option<&str>) -> (out:
        Invocation)
        ensures
            out.cwd() matches WorkingDir::Canonical(dir) && dir@ == self.cwd@,
            begun(
                out,
                self.platform,
                self.extra_envs@,
                command@,
                texts(args@),
                opt_str(search_path),
            ),
    {
        begin(
            self.platform,
            WorkingDir::Canonical(self.cwd.clone()),
            clone_entries(&self.extra_envs),
            command,
            args,
            search_path,
        )
    }
}

/// Begins the invocation of `command` with `args` on `host`, in the
/// configured working directory `cwd_override` or else the caller's current
/// directory, with the caller's environment.
pub fn cli_run(host: &Host, cwd_override: Option<&str>, command: &str, args: Vec<String>) -> (out:
    Invocation)
    ensures
        out.cwd() matches WorkingDir::Candidate(dir) && dir@ == cwd_candidate(
            opt_str(cwd_override),
            opt_text(host.home),
            host.current_dir@,
        ),
        begun(
            out,
            host.platform,
            Seq::empty(),
            command@,
            texts(args@),
            opt_text(host.search_path),
        ),
{
    let candidate = get_cli_run_cwd(
        cwd_override,
        as_str_option(&host.home),
        host.current_dir.as_str(),
    );
    begin(
        host.platform,
        WorkingDir::Candidate(candidate),
        Vec::new(),
        command,
        args,
        as_str_option(&host.search_path),
    )
}

} // verus!
