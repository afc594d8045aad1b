//! Descriptions of the commands sent to the container runtime. Building one
//! runs nothing: the caller performs it.
use vstd::prelude::*;

use crate::text::concat;
use crate::volumes::push_text;

verus! {

/// The program that every command is addressed to.
pub open spec fn runtime_program() -> Seq<char> {
    "podman"@
}

/// The runtime's name for the instance backing capsule `identifier`.
pub open spec fn instance_name_of(identifier: Seq<char>) -> Seq<char> {
    "capsule-"@ + identifier
}

/// `flag` before each of `values`, in order.
pub open spec fn flagged(flag: Seq<char>, values: Seq<Seq<char>>) -> Seq<Seq<char>>
    decreases values.len(),
{
    if values.len() == 0 {
        Seq::empty()
    } else {
        flagged(flag, values.drop_last()) + seq![flag, values.last()]
    }
}

/// The environment block of a new capsule: the display, the pulse server,
/// the bootstrap script's name, the home directory inside the capsule, and
/// the user's name.
pub open spec fn environment_of(
    identifier: Seq<char>,
    home_dir: Seq<char>,
    user: Seq<char>,
) -> Seq<Seq<char>> {
    seq![
        "DISPLAY=:0"@,
        "PULSE_SERVER=unix:/run/user/host/pulse/native"@,
        "BOOTSTRAP="@ + identifier + ".sh"@,
        "CAPSULE_HOMEDIR="@ + home_dir,
        "CAPSULE_USERNAME="@ + user,
    ]
}

/// The arguments of a detached launch of `image` as capsule `identifier`,
/// kept alive by a no-op foreground process.
pub open spec fn create_args_of(
    identifier: Seq<char>,
    image: Seq<char>,
    mounts: Seq<Seq<char>>,
    environment: Seq<Seq<char>>,
) -> Seq<Seq<char>> {
    seq![
        "run"@,
        "-d"@,
        "--gpus"@,
        "all"@,
        "-h"@,
        identifier,
        "--net=host"@,
        "--userns=keep-id"@,
        "--user=root"@,
        "--pids-limit=-1"@,
    ] + flagged("-v"@, mounts) + flagged("-e"@, environment) + seq![
        "--name"@,
        instance_name_of(identifier),
        image,
        "sleep"@,
        "infinity"@,
    ]
}

/// The arguments of an interactive attach to capsule `identifier` as `user`,
/// running `command`, or a shell where none is given.
pub open spec fn exec_args_of(
    identifier: Seq<char>,
    command: Option<Seq<char>>,
    user: Seq<char>,
) -> Seq<Seq<char>> {
    seq![
        "exec"@,
        "-it"@,
        "--user="@ + user,
        instance_name_of(identifier),
        match command {
            Some(c) => c,
            None => "sh"@,
        },
    ]
}

/// The arguments of the privileged one-shot run of the initialisation script
/// staged in capsule `identifier`.
pub open spec fn init_args_of(identifier: Seq<char>) -> Seq<Seq<char>> {
    seq![
        "exec"@,
        "--user=root"@,
        instance_name_of(identifier),
        "bash"@,
        "/files/.bootstrap/init.sh"@,
    ]
}

/// The format of one row of the listing: name, image and status.
pub open spec fn list_format() -> Seq<char> {
    "{{printf \"% -30s %-60s %-40s\" .Names .Image .Status}}"@
}

/// One launch of the runtime.
#[derive(Debug, Clone)]
pub struct CommandSpec {
    pub program: String,
    pub args: Vec<String>,
}

impl CommandSpec {
    /// The command is addressed to the runtime with exactly these arguments.
    pub open spec fn is_runtime(&self, args: Seq<Seq<char>>) -> bool {
        self.program@ == runtime_program() && self.args.deep_view() == args
    }
}

fn runtime_command(args: Vec<String>) -> (r: CommandSpec)
    ensures
        r.is_runtime(args.deep_view()),
{
    CommandSpec { program: String::from_str("podman"), args }
}

/// The runtime's name for the instance backing capsule `identifier`.
pub fn instance_name(identifier: &str) -> (r: String)
    ensures
        r@ == instance_name_of(identifier@),
{
    concat("capsule-", identifier)
}

/// Appends `flag` before each of `values`.
fn push_flagged(args: &mut Vec<String>, flag: &str, values: &Vec<String>)
    ensures
        final(args).deep_view() == old(args).deep_view() + flagged(flag@, values.deep_view()),
{
    let ghost start = args.deep_view();
    let ghost vs = values.deep_view();
    let mut i: usize = 0;
    while i < values.len()
        invariant
            i <= values.len(),
            vs == values.deep_view(),
            args.deep_view() == start + flagged(flag@, vs.take(i as int)),
        decreases values.len() - i,
    {
        assert(vs.take(i + 1).drop_last() =~= vs.take(i as int));
        assert(vs.take(i + 1).last() == values[i as int]@);
        push_text(args, flag);
        push_text(args, values[i].as_str());
        assert(args.deep_view() =~= start + flagged(flag@, vs.take(i + 1)));
        i = i + 1;
    }
    assert(vs.take(i as int) =~= vs);
}

/// The environment block of a new capsule.
pub fn capsule_environment(identifier: &str, home_dir: &str, user: &str) -> (r: Vec<String>)
    ensures
        r.deep_view() == environment_of(identifier@, home_dir@, user@),
{
    let mut r: Vec<String> = Vec::new();
    push_text(&mut r, "DISPLAY=:0");
    push_text(&mut r, "PULSE_SERVER=unix:/run/user/host/pulse/native");
    let bootstrap = concat("BOOTSTRAP=", identifier).concat(".sh");
    push_text(&mut r, bootstrap.as_str());
    let home = concat("CAPSULE_HOMEDIR=", home_dir);
    push_text(&mut r, home.as_str());
    let name = concat("CAPSULE_USERNAME=", user);
    push_text(&mut r, name.as_str());
    assert(r.deep_view() =~= environment_of(identifier@, home_dir@, user@));
    r
}

/// The detached launch that creates capsule `identifier` from `image` with
/// `mounts` and `environment`.
pub fn build_create(
    identifier: &str,
    image: &str,
    mounts: &Vec<String>,
    environment: &Vec<String>,
) -> (r: CommandSpec)
    ensures
        r.is_runtime(
            create_args_of(identifier@, image@, mounts.deep_view(), environment.deep_view()),
        ),
{
    let mut args: Vec<String> = Vec::new();
    push_text(&mut args, "run");
    push_text(&mut args, "-d");
    push_text(&mut args, "--gpus");
    push_text(&mut args, "all");
    push_text(&mut args, "-h");
    push_text(&mut args, identifier);
    push_text(&mut args, "--net=host");
    push_text(&mut args, "--userns=keep-id");
    push_text(&mut args, "--user=root");
    push_text(&mut args, "--pids-limit=-1");
    push_flagged(&mut args, "-v", mounts);
    push_flagged(&mut args, "-e", environment);
    push_text(&mut args, "--name");
    let name = instance_name(identifier);
    push_text(&mut args, name.as_str());
    push_text(&mut args, image);
    push_text(&mut args, "sleep");
    push_text(&mut args, "infinity");
    assert(args.deep_view() =~= create_args_of(
        identifier@,
        image@,
        mounts.deep_view(),
        environment.deep_view(),
    ));
    runtime_command(args)
}

/// A command of one word against the instance of capsule `identifier`.
fn lifecycle_command(verb: &str, identifier: &str) -> (r: CommandSpec)
    ensures
        r.is_runtime(seq![verb@, instance_name_of(identifier@)]),
{
    let mut args: Vec<String> = Vec::new();
    push_text(&mut args, verb);
    let name = instance_name(identifier);
    push_text(&mut args, name.as_str());
    assert(args.deep_view() =~= seq![verb@, instance_name_of(identifier@)]);
    runtime_command(args)
}

/// Starts the instance of capsule `identifier`.
pub fn build_start(identifier: &str) -> (r: CommandSpec)
    ensures
        r.is_runtime(seq!["start"@, instance_name_of(identifier@)]),
{
    lifecycle_command("start", identifier)
}

/// Stops the instance of capsule `identifier`.
pub fn build_stop(identifier: &str) -> (r: CommandSpec)
    ensures
        r.is_runtime(seq!["stop"@, instance_name_of(identifier@)]),
{
    lifecycle_command("stop", identifier)
}

/// Removes the instance of capsule `identifier`, even where it runs.
pub fn build_delete(identifier: &str) -> (r: CommandSpec)
    ensures
        r.is_runtime(seq!["rm"@, "-f"@, instance_name_of(identifier@)]),
{
    let mut args: Vec<String> = Vec::new();
    push_text(&mut args, "rm");
    push_text(&mut args, "-f");
    let name = instance_name(identifier);
    push_text(&mut args, name.as_str());
    assert(args.deep_view() =~= seq!["rm"@, "-f"@, instance_name_of(identifier@)]);
    runtime_command(args)
}

/// An interactive attach to capsule `identifier` as `user`, running
/// `command`, or a shell where none is given.
pub fn build_exec(identifier: &str, command: Option<&str>, user: &str) -> (r: CommandSpec)
    ensures
        r.is_runtime(exec_args_of(identifier@, command.deep_view(), user@)),
{
    let mut args: Vec<String> = Vec::new();
    push_text(&mut args, "exec");
    push_text(&mut args, "-it");
    let as_user = concat("--user=", user);
    push_text(&mut args, as_user.as_str());
    let name = instance_name(identifier);
    push_text(&mut args, name.as_str());
    match command {
        Some(c) => push_text(&mut args, c),
        None => push_text(&mut args, "sh"),
    }
    assert(args.deep_view() =~= exec_args_of(identifier@, command.deep_view(), user@));
    runtime_command(args)
}

/// The privileged run of the initialisation script staged in capsule `identifier`.
pub fn build_init(identifier: &str) -> (r: CommandSpec)
    ensures
        r.is_runtime(init_args_of(identifier@)),
{
    let mut args: Vec<String> = Vec::new();
    push_text(&mut args, "exec");
    push_text(&mut args, "--user=root");
    let name = instance_name(identifier);
    push_text(&mut args, name.as_str());
    push_text(&mut args, "bash");
    push_text(&mut args, "/files/.bootstrap/init.sh");
    assert(args.deep_view() =~= init_args_of(identifier@));
    runtime_command(args)
}

/// The listing of every instance with its name, image and status.
pub fn build_list() -> (r: CommandSpec)
    ensures
        r.is_runtime(seq!["container"@, "list"@, "-a"@, "--format"@, list_format()]),
{
    let mut args: Vec<String> = Vec::new();
    push_text(&mut args, "container");
    push_text(&mut args, "list");
    push_text(&mut args, "-a");
    push_text(&mut args, "--format");
    push_text(&mut args, "{{printf \"% -30s %-60s %-40s\" .Names .Image .Status}}");
    assert(args.deep_view() =~= seq!["container"@, "list"@, "-a"@, "--format"@, list_format()]);
    runtime_command(args)
}

} // verus!
