use capsules::config::{Config, Identity};
use capsules::invocation::{build_create, capsule_environment, CommandSpec};
use capsules::layout::PathLayout;
use capsules::lifecycle::{
    plan_console, plan_delete, plan_exec, plan_list, plan_spin, plan_start, plan_stop, Operation,
    Step, StepOutcome,
};
use capsules::listing::capsule_rows;
use capsules::volumes::{compose, data_volume, fixed_mounts};
use capsules::CapsuleError;

fn identity() -> Identity {
    Identity::resolve(Some("alice".to_string()), Some("/home/alice".to_string())).unwrap()
}

fn words(v: &[&str]) -> Vec<String> {
    v.iter().map(|s| s.to_string()).collect()
}

fn args_of(step: &Step) -> &CommandSpec {
    match step {
        Step::Run(c) | Step::Attach(c) => c,
        other => panic!("not a runtime step: {:?}", other),
    }
}

/// Performs every step with a collaborator that succeeds, recording the
/// runtime commands in order.
fn run_all(steps: Vec<Step>) -> (Operation, Vec<Vec<String>>, usize) {
    let mut op = Operation::new(steps);
    let mut commands = Vec::new();
    let mut fs_effects = 0;
    while let Some(step) = op.next_step() {
        match step {
            Step::EnsureDir(_) | Step::CopyTree { .. } => fs_effects += 1,
            Step::Run(c) | Step::Attach(c) => commands.push(c.args.clone()),
        }
        let outcome = match step {
            Step::EnsureDir(_) | Step::CopyTree { .. } => StepOutcome::Completed,
            _ => StepOutcome::Exited { success: true, report: String::new() },
        };
        op.record(outcome);
    }
    (op, commands, fs_effects)
}

#[test]
fn spin_with_init_stages_bootstrap_and_runs_init() {
    let cfg = Config::load(Some("volumes_root = \"/srv/capsules\""));
    let steps = plan_spin(&cfg, &identity(), "ubuntu:latest", "dev1", vec![], true, true).unwrap();
    assert_eq!(steps.len(), 4);
    match &steps[0] {
        Step::EnsureDir(p) => assert_eq!(p, "/srv/capsules/dev1/home/alice"),
        other => panic!("unexpected {:?}", other),
    }
    match &steps[1] {
        Step::CopyTree { source, destination } => {
            assert_eq!(source, "/home/alice/.config/capsules/bootstrap/dev1");
            assert_eq!(destination, "/srv/capsules/dev1/.bootstrap");
        }
        other => panic!("unexpected {:?}", other),
    }
    let create = args_of(&steps[2]);
    assert_eq!(create.program, "podman");
    let pos = create.args.iter().position(|a| a == "--name").unwrap();
    assert_eq!(create.args[pos + 1], "capsule-dev1");
    assert_eq!(create.args[pos + 2], "ubuntu:latest");
    let init = args_of(&steps[3]);
    assert_eq!(
        init.args,
        words(&["exec", "--user=root", "capsule-dev1", "bash", "/files/.bootstrap/init.sh"])
    );
    let (op, commands, fs_effects) = run_all(steps);
    assert!(op.is_finished());
    assert_eq!(commands.len(), 2);
    assert_eq!(fs_effects, 2);
}

#[test]
fn spin_without_bootstrap_source_aborts_before_runtime() {
    let cfg = Config::defaults();
    let r = plan_spin(&cfg, &identity(), "ubuntu:latest", "dev1", vec![], true, false);
    assert!(matches!(r, Err(CapsuleError::Precondition(_))));
}

#[test]
fn spin_without_init_does_not_need_bootstrap_source() {
    let cfg = Config::defaults();
    let steps = plan_spin(&cfg, &identity(), "img", "dev1", vec![], false, false).unwrap();
    assert_eq!(steps.len(), 3);
    match &steps[0] {
        Step::EnsureDir(p) => assert_eq!(p, "/home/alice/.local/capsules/volumes/dev1/home/alice"),
        other => panic!("unexpected {:?}", other),
    }
}

#[test]
fn spin_create_command_is_exact() {
    let cfg = Config::defaults();
    let steps = plan_spin(&cfg, &identity(), "fedora", "web", words(&["/a:/b"]), false, true).unwrap();
    let create = args_of(&steps[2]);
    let expected = words(&[
        "run", "-d", "--gpus", "all", "-h", "web", "--net=host", "--userns=keep-id",
        "--user=root", "--pids-limit=-1",
        "-v", "/dev/snd:/dev/snd:rw",
        "-v", "/dev/shm:/dev/shm:rw",
        "-v", "/run/user/1000/pulse:/run/user/host/pulse:rw",
        "-v", "/files/projects/dotfiles/config:/home/alice/.config:rw",
        "-v", "/files/projects/dotfiles/fonts:/home/alice/.fonts",
        "-v", "/a:/b",
        "-v", "/home/alice/.local/capsules/volumes/web:/files:rw",
        "-e", "DISPLAY=:0",
        "-e", "PULSE_SERVER=unix:/run/user/host/pulse/native",
        "-e", "BOOTSTRAP=web.sh",
        "-e", "CAPSULE_HOMEDIR=/home",
        "-e", "CAPSULE_USERNAME=alice",
        "--name", "capsule-web", "fedora", "sleep", "infinity",
    ]);
    assert_eq!(create.args, expected);
}

#[test]
fn create_names_instance_and_mounts_data_once() {
    let layout = PathLayout::resolve("dev1", &Config::defaults(), &identity());
    let data = data_volume(&layout.capsule_root);
    let mounts = compose(fixed_mounts("/home", "alice"), words(&["/x:/y:ro"]), data.clone());
    let env = capsule_environment("dev1", "/home", "alice");
    let cmd = build_create("dev1", "ubuntu:latest", &mounts, &env);
    assert_eq!(cmd.args.iter().filter(|a| **a == data).count(), 1);
    let pos = cmd.args.iter().position(|a| a == "--name").unwrap();
    assert_eq!(cmd.args[pos + 1], "capsule-dev1");
}

#[test]
fn stop_then_start_issues_two_commands() {
    let mut steps = plan_stop("dev1");
    steps.extend(plan_start("dev1"));
    let (op, commands, fs_effects) = run_all(steps);
    assert!(op.is_finished());
    assert_eq!(commands, vec![words(&["stop", "capsule-dev1"]), words(&["start", "capsule-dev1"])]);
    assert_eq!(fs_effects, 0);
}

#[test]
fn delete_forces_removal() {
    let steps = plan_delete("dev1");
    assert_eq!(args_of(&steps[0]).args, words(&["rm", "-f", "capsule-dev1"]));
}

#[test]
fn exec_starts_then_attaches_as_user() {
    let steps = plan_exec("dev1", "bash", &identity());
    assert_eq!(steps.len(), 2);
    assert_eq!(args_of(&steps[0]).args, words(&["start", "capsule-dev1"]));
    assert!(matches!(steps[1], Step::Attach(_)));
    assert_eq!(
        args_of(&steps[1]).args,
        words(&["exec", "-it", "--user=alice", "capsule-dev1", "bash"])
    );
}

#[test]
fn console_attaches_as_root_with_default_shell() {
    let steps = plan_console("dev1", None);
    assert_eq!(steps.len(), 1);
    assert_eq!(
        args_of(&steps[0]).args,
        words(&["exec", "-it", "--user=root", "capsule-dev1", "sh"])
    );
    let steps = plan_console("dev1", Some("top"));
    assert_eq!(args_of(&steps[0]).args[4], "top");
}

#[test]
fn list_queries_all_instances() {
    let steps = plan_list();
    let args = &args_of(&steps[0]).args;
    assert_eq!(&args[..4], &words(&["container", "list", "-a", "--format"])[..]);
    assert_eq!(args[4], "{{printf \"% -30s %-60s %-40s\" .Names .Image .Status}}");
}

#[test]
fn list_output_keeps_capsule_rows() {
    let rows = capsule_rows("capsule-dev1 ubuntu Running\nother-thing image Running\n");
    assert_eq!(rows, words(&["capsule-dev1 ubuntu Running"]));
}

#[test]
fn list_output_handles_crlf_and_missing_final_newline() {
    let rows = capsule_rows("a\r\ncapsule-x img Up\r\nb\ncapsule-y img Exited");
    assert_eq!(rows, words(&["capsule-x img Up", "capsule-y img Exited"]));
    assert!(capsule_rows("").is_empty());
}

#[test]
fn failed_step_aborts_the_rest() {
    let cfg = Config::defaults();
    let steps = plan_spin(&cfg, &identity(), "img", "dev1", vec![], true, true).unwrap();
    let mut op = Operation::new(steps);
    op.record(StepOutcome::Completed);
    op.record(StepOutcome::IoFailed("disk full".to_string()));
    assert!(op.next_step().is_none());
    assert!(!op.is_finished());
    assert_eq!(op.done, 1);
    assert_eq!(op.failure, Some(CapsuleError::Io("disk full".to_string())));
}

#[test]
fn runtime_failure_is_reported_verbatim() {
    let mut op = Operation::new(plan_start("nope"));
    op.record(StepOutcome::Exited { success: false, report: "no such container".to_string() });
    assert_eq!(op.failure, Some(CapsuleError::RuntimeReported("no such container".to_string())));
    let mut op = Operation::new(plan_stop("nope"));
    op.record(StepOutcome::SpawnFailed("not found".to_string()));
    assert_eq!(op.failure, Some(CapsuleError::RuntimeInvocation("not found".to_string())));
}

#[test]
fn attached_session_exit_status_is_forwarded_not_failed() {
    let mut op = Operation::new(plan_console("dev1", None));
    op.record(StepOutcome::Exited { success: false, report: String::new() });
    assert!(op.is_finished());
}
