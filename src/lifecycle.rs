//! The public operations on capsules as sequences of steps, and the rule by
//! which a sequence advances or aborts as each step's outcome comes in.
use vstd::prelude::*;

use crate::config::{Config, Identity};
use crate::invocation::{
    build_create, build_delete, build_exec, build_init, build_list, build_start, build_stop,
    capsule_environment, create_args_of, environment_of, exec_args_of, init_args_of,
    instance_name_of, list_format, CommandSpec,
};
use crate::layout::{bootstrap_source_of, capsule_root_of, home_of, staging_of, PathLayout};
use crate::volumes::{
    compose, data_volume, data_volume_of, fixed_mounts, fixed_mounts_of,
    lemma_fixed_mounts_differ_from_data, only_last,
};
use crate::CapsuleError;

verus! {

/// One side effect of an operation, performed by the caller.
#[derive(Debug)]
pub enum Step {
    /// Create a directory and its missing ancestors.
    EnsureDir(String),
    /// Copy a file tree, overwriting entry by entry.
    CopyTree { source: String, destination: String },
    /// Launch the runtime and capture its output.
    Run(CommandSpec),
    /// Launch the runtime attached to the caller's terminal and forward its status.
    Attach(CommandSpec),
}

pub open spec fn is_ensure_dir(s: Step, path: Seq<char>) -> bool {
    s matches Step::EnsureDir(p) && p@ == path
}

pub open spec fn is_copy_tree(s: Step, source: Seq<char>, destination: Seq<char>) -> bool {
    s matches Step::CopyTree { source: a, destination: b } && a@ == source && b@ == destination
}

pub open spec fn is_run(s: Step, args: Seq<Seq<char>>) -> bool {
    s matches Step::Run(c) && c.is_runtime(args)
}

pub open spec fn is_attach(s: Step, args: Seq<Seq<char>>) -> bool {
    s matches Step::Attach(c) && c.is_runtime(args)
}

/// The mounts of a new capsule.
pub open spec fn spin_mounts_of(
    cfg: &Config,
    identity: &Identity,
    identifier: Seq<char>,
    caller: Seq<Seq<char>>,
) -> Seq<Seq<char>> {
    fixed_mounts_of(cfg.capsule_home_dir_spec(), identity.user@) + caller + seq![
        data_volume_of(capsule_root_of(cfg.volumes_root_spec(identity), identifier)),
    ]
}

/// The arguments of the launch that creates a new capsule.
pub open spec fn spin_create_args_of(
    cfg: &Config,
    identity: &Identity,
    image: Seq<char>,
    identifier: Seq<char>,
    caller: Seq<Seq<char>>,
) -> Seq<Seq<char>> {
    create_args_of(
        identifier,
        image,
        spin_mounts_of(cfg, identity, identifier, caller),
        environment_of(identifier, cfg.capsule_home_dir_spec(), identity.user@),
    )
}

/// The steps that create capsule `identifier`: its home directory, the
/// staged bootstrap tree, the launch, and, where asked for, the initialisation run.
pub open spec fn spin_steps(
    steps: Seq<Step>,
    cfg: &Config,
    identity: &Identity,
    image: Seq<char>,
    identifier: Seq<char>,
    caller: Seq<Seq<char>>,
    init: bool,
) -> bool {
    let root = capsule_root_of(cfg.volumes_root_spec(identity), identifier);
    &&& steps.len() == if init {
        4int
    } else {
        3int
    }
    &&& is_ensure_dir(steps[0], home_of(root, identity.user@))
    &&& is_copy_tree(steps[1], bootstrap_source_of(identity.home@, identifier), staging_of(root))
    &&& is_run(steps[2], spin_create_args_of(cfg, identity, image, identifier, caller))
    &&& init ==> is_run(steps[3], init_args_of(identifier))
}

/// Plans the creation of capsule `identifier` from `image`, with the caller's
/// `volumes` after the system mounts. `bootstrap_present` says whether the
/// capsule's bootstrap source exists: when initialisation is asked for, its
/// absence aborts the operation before anything is done.
pub fn plan_spin(
    cfg: &Config,
    identity: &Identity,
    image: &str,
    identifier: &str,
    volumes: Vec<String>,
    init: bool,
    bootstrap_present: bool,
) -> (r: Result<Vec<Step>, CapsuleError>)
    ensures
        r is Err <==> init && !bootstrap_present,
        r matches Err(e) ==> e is Precondition,
        r matches Ok(steps) ==> spin_steps(
            steps@,
            cfg,
            identity,
            image@,
            identifier@,
            volumes.deep_view(),
            init,
        ),
{
    let layout = PathLayout::resolve(identifier, cfg, identity);
    if init && !bootstrap_present {
        return Err(
            CapsuleError::Precondition(
                crate::text::concat("the bootstrap source does not exist: ", layout.bootstrap_source.as_str()),
            ),
        );
    }
    let ghost caller = volumes.deep_view();
    let home_dir = cfg.capsule_home_dir();
    let fixed = fixed_mounts(home_dir, identity.user.as_str());
    let data = data_volume(layout.capsule_root.as_str());
    let mounts = compose(fixed, volumes, data);
    let environment = capsule_environment(identifier, home_dir, identity.user.as_str());
    let create = build_create(identifier, image, &mounts, &environment);
    let mut steps: Vec<Step> = Vec::new();
    steps.push(Step::EnsureDir(layout.home));
    steps.push(
        Step::CopyTree { source: layout.bootstrap_source, destination: layout.bootstrap_staging },
    );
    steps.push(Step::Run(create));
    if init {
        steps.push(Step::Run(build_init(identifier)));
    }
    proof {
        assert(mounts.deep_view() == spin_mounts_of(cfg, identity, identifier@, caller));
    }
    Ok(steps)
}

/// The launch that creates a capsule always names its instance
/// `capsule-<identifier>`, and mounts the capsule's own data volume exactly
/// once, as the last mount, wherever the caller's mounts do not repeat it.
pub proof fn lemma_create_names_instance_and_mounts_data_once(
    cfg: &Config,
    identity: &Identity,
    image: Seq<char>,
    identifier: Seq<char>,
    caller: Seq<Seq<char>>,
)
    requires
        forall|i: int|
            0 <= i < caller.len() ==> caller[i] != data_volume_of(
                capsule_root_of(cfg.volumes_root_spec(identity), identifier),
            ),
    ensures
        ({
            let args = spin_create_args_of(cfg, identity, image, identifier, caller);
            let mounts = spin_mounts_of(cfg, identity, identifier, caller);
            &&& args.len() >= 5
            &&& args[args.len() - 5] == "--name"@
            &&& args[args.len() - 4] == instance_name_of(identifier)
            &&& only_last(
                mounts,
                data_volume_of(capsule_root_of(cfg.volumes_root_spec(identity), identifier)),
            )
        }),
{
    let data = data_volume_of(capsule_root_of(cfg.volumes_root_spec(identity), identifier));
    let fixed = fixed_mounts_of(cfg.capsule_home_dir_spec(), identity.user@);
    let mounts = spin_mounts_of(cfg, identity, identifier, caller);
    lemma_fixed_mounts_differ_from_data(
        cfg.capsule_home_dir_spec(),
        identity.user@,
        capsule_root_of(cfg.volumes_root_spec(identity), identifier),
    );
    assert forall|i: int| 0 <= i < mounts.len() - 1 implies mounts[i] != data by {
        if i < fixed.len() {
            assert(mounts[i] == fixed[i]);
        } else {
            assert(mounts[i] == caller[i - fixed.len()]);
        }
    }
}

/// Plans the start of capsule `identifier`.
pub fn plan_start(identifier: &str) -> (r: Vec<Step>)
    ensures
        r@.len() == 1,
        is_run(r@[0], seq!["start"@, instance_name_of(identifier@)]),
{
    vec![Step::Run(build_start(identifier))]
}

/// Plans the stop of capsule `identifier`.
pub fn plan_stop(identifier: &str) -> (r: Vec<Step>)
    ensures
        r@.len() == 1,
        is_run(r@[0], seq!["stop"@, instance_name_of(identifier@)]),
{
    vec![Step::Run(build_stop(identifier))]
}

/// Plans the forced removal of capsule `identifier`.
pub fn plan_delete(identifier: &str) -> (r: Vec<Step>)
    ensures
        r@.len() == 1,
        is_run(r@[0], seq!["rm"@, "-f"@, instance_name_of(identifier@)]),
{
    vec![Step::Run(build_delete(identifier))]
}

/// Plans running `command` in capsule `identifier` as the invoking user:
/// the instance is started first, whatever its state, then attached to.
pub fn plan_exec(identifier: &str, command: &str, identity: &Identity) -> (r: Vec<Step>)
    ensures
        r@.len() == 2,
        is_run(r@[0], seq!["start"@, instance_name_of(identifier@)]),
        is_attach(r@[1], exec_args_of(identifier@, Some(command@), identity.user@)),
{
    vec![
        Step::Run(build_start(identifier)),
        Step::Attach(build_exec(identifier, Some(command), identity.user.as_str())),
    ]
}

/// Plans a privileged session in capsule `identifier`, running `command` or
/// a shell. The instance is not started first: where it is not running, the
/// runtime reports the failure.
pub fn plan_console(identifier: &str, command: Option<&str>) -> (r: Vec<Step>)
    ensures
        r@.len() == 1,
        is_attach(r@[0], exec_args_of(identifier@, command.deep_view(), "root"@)),
{
    vec![Step::Attach(build_exec(identifier, command, "root"))]
}

/// Plans the listing of all instances.
pub fn plan_list() -> (r: Vec<Step>)
    ensures
        r@.len() == 1,
        is_run(r@[0], seq!["container"@, "list"@, "-a"@, "--format"@, list_format()]),
{
    vec![Step::Run(build_list())]
}

/// What became of one step, as the caller observed it.
#[derive(Debug)]
pub enum StepOutcome {
    /// A directory or copy step succeeded.
    Completed,
    /// A directory or copy step failed.
    IoFailed(String),
    /// The runtime could not be launched.
    SpawnFailed(String),
    /// The runtime ran; `success` tells its exit status, `report` what it said.
    Exited { success: bool, report: String },
}

/// Whether `outcome` lets the operation go past step `s`.
pub open spec fn outcome_passes(s: Step, outcome: StepOutcome) -> bool {
    match outcome {
        StepOutcome::Completed => true,
        StepOutcome::Exited { success, .. } => success || s is Attach,
        _ => false,
    }
}

/// The error that aborts an operation, for an outcome that does not pass.
pub open spec fn failure_of(outcome: StepOutcome) -> Option<CapsuleError> {
    match outcome {
        StepOutcome::IoFailed(m) => Some(CapsuleError::Io(m)),
        StepOutcome::SpawnFailed(m) => Some(CapsuleError::RuntimeInvocation(m)),
        StepOutcome::Exited { report, .. } => Some(CapsuleError::RuntimeReported(report)),
        StepOutcome::Completed => None,
    }
}

/// An operation under way: its steps, how many are done, and the failure
/// that aborted it, if one did. A failed step aborts the rest; none is retried.
#[derive(Debug)]
pub struct Operation {
    pub steps: Vec<Step>,
    pub done: usize,
    pub failure: Option<CapsuleError>,
}

impl Operation {
    pub open spec fn wf(&self) -> bool {
        &&& self.done <= self.steps@.len()
        &&& self.failure is Some ==> self.done < self.steps@.len()
    }

    /// Every step has been performed successfully.
    pub open spec fn finished(&self) -> bool {
        self.failure is None && self.done == self.steps@.len()
    }

    /// An operation that has performed none of `steps`.
    pub fn new(steps: Vec<Step>) -> (r: Operation)
        ensures
            r.wf(),
            r.steps@ == steps@,
            r.done == 0,
            r.failure is None,
    {
        Operation { steps, done: 0, failure: None }
    }

    /// The step to perform now: none once every step is done or one has failed.
    pub fn next_step(&self) -> (r: Option<&Step>)
        requires
            self.wf(),
        ensures
            r is Some <==> self.failure is None && self.done < self.steps@.len(),
            r matches Some(s) ==> *s == self.steps@[self.done as int],
    {
        if self.failure.is_none() && self.done < self.steps.len() {
            Some(&self.steps[self.done])
        } else {
            None
        }
    }

    /// Takes in the outcome of the current step: a passing outcome moves on
    /// to the next step, any other aborts the operation with its error.
    pub fn record(&mut self, outcome: StepOutcome)
        requires
            old(self).wf(),
            old(self).failure is None,
            old(self).done < old(self).steps@.len(),
        ensures
            final(self).wf(),
            final(self).steps@ == old(self).steps@,
            outcome_passes(old(self).steps@[old(self).done as int], outcome) ==> final(self).done
                == old(self).done + 1 && final(self).failure is None,
            !outcome_passes(old(self).steps@[old(self).done as int], outcome) ==> final(self).done
                == old(self).done && final(self).failure == failure_of(outcome),
    {
        let n = self.steps.len();
        assert(self.done < n);
        let attach = match &self.steps[self.done] {
            Step::Attach(_) => true,
            _ => false,
        };
        match outcome {
            StepOutcome::Completed => {
                self.done = self.done + 1;
            },
            StepOutcome::IoFailed(m) => {
                self.failure = Some(CapsuleError::Io(m));
            },
            StepOutcome::SpawnFailed(m) => {
                self.failure = Some(CapsuleError::RuntimeInvocation(m));
            },
            StepOutcome::Exited { success, report } => {
                if success || attach {
                    self.done = self.done + 1;
                } else {
                    self.failure = Some(CapsuleError::RuntimeReported(report));
                }
            },
        }
    }

    /// Whether every step has been performed successfully.
    pub fn is_finished(&self) -> (r: bool)
        ensures
            r == self.finished(),
    {
        self.failure.is_none() && self.done == self.steps.len()
    }
}

} // verus!
