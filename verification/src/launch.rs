//! Process launching: what the child is started with.
//!
//! The child runs the resolved command in the working directory of the
//! invocation. Its environment is the caller's, with the entries of an
//! explicit mapping added; where both hold a key, the explicit entry stands.
//! Its standard output and standard error are always connected to pipes, so
//! that the forwarding loops are their only readers.

use vstd::prelude::*;
use crate::resolve::ResolvedCommand;

verus! {

/// Where the environment of the child comes from.
#[derive(Debug)]
pub enum EnvPolicy {
    /// The caller's environment, unchanged.
    Inherit,
    /// The caller's environment with these entries added or replaced.
    InheritWith(Vec<(String, String)>),
}

/// What an output stream of the child is connected to.
#[derive(Clone, Copy, Debug, PartialEq, Eq, Structural)]
pub enum Wiring {
    /// A pipe of its own, read by a forwarding loop.
    Piped,
    /// The caller's own stream.
    Inherited,
}

/// All that is needed to start the child.
#[derive(Debug)]
pub struct LaunchPlan {
    pub executable: String,
    pub args: Vec<String>,
    pub cwd: String,
    pub env: EnvPolicy,
    pub stdout: Wiring,
    pub stderr: Wiring,
}

/// The environment that a list of entries stands for: of two entries with the
/// same key, the later one stands.
pub open spec fn env_map(entries: Seq<(String, String)>) -> Map<Seq<char>, Seq<char>>
    decreases entries.len(),
{
    if entries.len() == 0 {
        Map::empty()
    } else {
        env_map(entries.drop_last()).insert(entries.last().0@, entries.last().1@)
    }
}

/// The explicit entries of a policy.
pub open spec fn overrides_of(policy: EnvPolicy) -> Seq<(String, String)> {
    match policy {
        EnvPolicy::Inherit => Seq::empty(),
        EnvPolicy::InheritWith(entries) => entries@,
    }
}

/// The environment of a child started under `policy` by a caller whose own
/// environment is `caller`.
pub open spec fn child_env(caller: Seq<(String, String)>, policy: EnvPolicy) -> Map<
    Seq<char>,
    Seq<char>,
> {
    env_map(caller).union_prefer_right(env_map(overrides_of(policy)))
}

/// Entries listed after others are laid over them.
pub proof fn lemma_env_map_concat(first: Seq<(String, String)>, second: Seq<(String, String)>)
    ensures
        env_map(first + second) == env_map(first).union_prefer_right(env_map(second)),
    decreases second.len(),
{
    if second.len() == 0 {
        assert(first + second =~= first);
        assert(env_map(first).union_prefer_right(env_map(second)) =~= env_map(first));
    } else {
        lemma_env_map_concat(first, second.drop_last());
        assert((first + second).drop_last() =~= first + second.drop_last());
        assert((first + second).last() == second.last());
        assert(env_map(first + second) =~= env_map(first).union_prefer_right(env_map(second)));
    }
}

/// In the child's environment an explicit entry always stands, and every
/// other variable of the caller is kept as it is.
pub proof fn lemma_overrides_take_precedence(
    caller: Seq<(String, String)>,
    policy: EnvPolicy,
    key: Seq<char>,
)
    ensures
        env_map(overrides_of(policy)).contains_key(key) ==> child_env(caller, policy).contains_key(
            key,
        ) && child_env(caller, policy)[key] == env_map(overrides_of(policy))[key],
        !env_map(overrides_of(policy)).contains_key(key) && env_map(caller).contains_key(key)
            ==> child_env(caller, policy).contains_key(key) && child_env(caller, policy)[key]
            == env_map(caller)[key],
        child_env(caller, policy).contains_key(key) ==> env_map(caller).contains_key(key)
            || env_map(overrides_of(policy)).contains_key(key),
        policy is Inherit ==> child_env(caller, policy) == env_map(caller),
{
    if policy is Inherit {
        assert(child_env(caller, policy) =~= env_map(caller));
    }
}

/// The policy for a mapping of extra entries: an empty mapping means that the
/// caller's environment is inherited unchanged.
pub fn env_policy(extra: Vec<(String, String)>) -> (out: EnvPolicy)
    ensures
        extra.len() == 0 ==> out is Inherit,
        extra.len() > 0 ==> out == EnvPolicy::InheritWith(extra),
        overrides_of(out) == extra@,
{
    if extra.len() == 0 {
        assert(extra@ =~= Seq::empty());
        EnvPolicy::Inherit
    } else {
        EnvPolicy::InheritWith(extra)
    }
}

/// A copy of a list of entries.
pub fn clone_entries(entries: &Vec<(String, String)>) -> (out: Vec<(String, String)>)
    ensures
        out@ == entries@,
{
    let mut out: Vec<(String, String)> = Vec::new();
    let mut i: usize = 0;
    while i < entries.len()
        invariant
            i <= entries.len(),
            out@ == entries@.take(i as int),
        decreases entries.len() - i,
    {
        let key = entries[i].0.clone();
        let value = entries[i].1.clone();
        out.push((key, value));
        assert(out@ =~= entries@.take(i + 1));
        i = i + 1;
    }
    assert(entries@.take(entries.len() as int) =~= entries@);
    out
}

/// A copy of a policy.
pub fn clone_policy(policy: &EnvPolicy) -> (out: EnvPolicy)
    ensures
        out is Inherit <==> *policy is Inherit,
        overrides_of(out) == overrides_of(*policy),
{
    match policy {
        EnvPolicy::Inherit => EnvPolicy::Inherit,
        EnvPolicy::InheritWith(entries) => {
            EnvPolicy::InheritWith(clone_entries(entries))
        },
    }
}

/// The entries of the child's environment: those of the caller followed by
/// the explicit ones.
pub fn effective_env(caller: &Vec<(String, String)>, policy: &EnvPolicy) -> (out: Vec<
    (String, String),
>)
    ensures
        out@ == caller@ + overrides_of(*policy),
        env_map(out@) == child_env(caller@, *policy),
{
    let mut out = clone_entries(caller);
    match policy {
        EnvPolicy::Inherit => {
            assert(out@ =~= caller@ + overrides_of(*policy));
        },
        EnvPolicy::InheritWith(entries) => {
            let mut i: usize = 0;
            while i < entries.len()
                invariant
                    i <= entries.len(),
                    out@ == caller@ + entries@.take(i as int),
                decreases entries.len() - i,
            {
                let key = entries[i].0.clone();
                let value = entries[i].1.clone();
                out.push((key, value));
                assert(out@ =~= caller@ + entries@.take(i + 1));
                i = i + 1;
            }
            assert(entries@.take(entries.len() as int) =~= entries@);
        },
    }
    proof {
        lemma_env_map_concat(caller@, overrides_of(*policy));
    }
    out
}

/// The plan that starts `command` in `cwd` under `env`, with both output
/// streams piped.
pub fn launch_plan(command: ResolvedCommand, cwd: String, env: EnvPolicy) -> (out: LaunchPlan)
    ensures
        out.executable == command.executable,
        out.args == command.args,
        out.cwd == cwd,
        out.env == env,
        out.stdout == Wiring::Piped,
        out.stderr == Wiring::Piped,
{
    LaunchPlan {
        executable: command.executable,
        args: command.args,
        cwd,
        env,
        stdout: Wiring::Piped,
        stderr: Wiring::Piped,
    }
}

} // verus!
