//! What each role of this tool runs: the orchestrator wrapper, the compiler
//! wrapper, and the dispatch between them.
use vstd::prelude::*;
use crate::channel::{
    cargo_name_of, get_cargo_name, get_rustc_name, modes_of, persist_modes, read_modes,
    running_as_rustc_proxy, rustc_name_of, turn_on_rustc_proxy, var_or, ModeError, ProxyEnv,
};
use crate::modes::{
    bake_flags, bake_from_flags, bake_mode_args, bake_name, cargo_args_for_bake_mode, cpu_count,
    debug_flags, debug_from_flags, debug_mode_args, debug_name, get_bake_mode_from_args,
    get_debug_mode_from_args, orchestrator_flags, BakeMode, DebugMode,
};
use crate::sanitize::{
    strip_bake_args, strip_opt_args, without_conflicting_flags, without_pseudo_flags,
};
use crate::text::{contains_text, seq_contains};

verus! {

/// A program to spawn and the arguments to hand it.
#[derive(Debug)]
pub struct Invocation {
    pub program: String,
    pub args: Vec<String>,
}

/// The arguments of the orchestrator run for the user's arguments `args`.
pub open spec fn orchestrator_args(args: Seq<Seq<char>>) -> Seq<Seq<char>> {
    seq!["build"@] + orchestrator_flags(bake_from_flags(args)) + without_pseudo_flags(args)
}

/// The arguments of the real compiler run for the orchestrator's arguments
/// `args`, on a host with `cpus` CPUs.
pub open spec fn compiler_args(
    args: Seq<Seq<char>>,
    bake: BakeMode,
    debug: DebugMode,
    cpus: nat,
    gold: bool,
) -> Seq<Seq<char>> {
    without_conflicting_flags(args) + bake_flags(bake, cpus, gold) + debug_flags(debug)
}

/// Whether `name` is a bare name rather than a path.
pub open spec fn is_bare_name(name: Seq<char>) -> bool {
    !seq_contains(name, "/"@) && !seq_contains(name, "\\"@)
}

/// Where the version manager's shims live in the shell layer.
pub open spec fn shim_dir() -> Seq<char> {
    "c:/msys64/usr/local/bin/"@
}

/// The orchestrator-role work on the user's arguments `args` (the program
/// name not among them): persists the modes they select into `env` and
/// returns the orchestrator's arguments, `build`, the flags of the bake mode
/// for the orchestrator, then `args` without the mode flags.
pub fn run_cargo(env: &mut ProxyEnv, args: &[String]) -> (r: Vec<String>)
    ensures
        r.deep_view() == orchestrator_args(args.deep_view()),
        final(env).bake_mode.deep_view() == Some(bake_name(bake_from_flags(args.deep_view()))),
        final(env).debug_mode.deep_view() == Some(
            debug_name(debug_from_flags(args.deep_view())),
        ),
        final(env).proxy == old(env).proxy,
        final(env).cargo == old(env).cargo,
        final(env).rustc == old(env).rustc,
        final(env).saved_rustc == old(env).saved_rustc,
{
    let bake = get_bake_mode_from_args(args);
    let debug = get_debug_mode_from_args(args);
    persist_modes(env, bake, debug);
    let rest = strip_bake_args(args);
    let flags = cargo_args_for_bake_mode(bake);
    let mut r: Vec<String> = Vec::new();
    r.push("build".to_owned());
    assert(r.deep_view() =~= seq!["build"@]);
    append_all(&mut r, flags);
    append_all(&mut r, rest);
    r
}

fn append_all(r: &mut Vec<String>, tail: Vec<String>)
    ensures
        final(r).deep_view() == old(r).deep_view() + tail.deep_view(),
{
    let ghost head = r.deep_view();
    let mut j: usize = 0;
    while j < tail.len()
        invariant
            j <= tail.len(),
            r.deep_view() == head + tail.deep_view().subrange(0, j as int),
        decreases tail.len() - j,
    {
        let ghost before = r.deep_view();
        r.push(tail[j].clone());
        assert(r.deep_view() =~= before.push(tail.deep_view()[j as int]));
        assert(r.deep_view() =~= head + tail.deep_view().subrange(0, j + 1));
        j = j + 1;
    }
    assert(tail.deep_view().subrange(0, j as int) =~= tail.deep_view());
}

/// The real compiler's arguments for the orchestrator's arguments `args`
/// (the program name not among them): `args` without conflicting flags,
/// then the flags of `bake` on a host with `cpus` CPUs, then those of `debug`.
pub fn rustc_args(args: &[String], bake: BakeMode, debug: DebugMode, cpus: usize, gold: bool) -> (r:
    Vec<String>)
    ensures
        r.deep_view() == compiler_args(args.deep_view(), bake, debug, cpus as nat, gold),
{
    let mut r = strip_opt_args(args);
    append_all(&mut r, bake_mode_args(bake, cpus, gold));
    append_all(&mut r, debug_mode_args(debug));
    r
}

/// The compiler-role work on the orchestrator's arguments `args` (the
/// program name not among them): reads the modes persisted in `env` and
/// returns the real compiler's arguments for them and this host's CPU count;
/// fails where the modes cannot be read back.
pub fn run_rustc(env: &ProxyEnv, args: &[String], gold: bool) -> (r: Result<
    Vec<String>,
    ModeError,
>)
    ensures
        match modes_of(*env) {
            Ok((b, d)) => r is Ok && exists|cpus: nat|
                cpus >= 1 && r->Ok_0.deep_view() == compiler_args(
                    args.deep_view(),
                    b,
                    d,
                    cpus,
                    gold,
                ),
            Err(e) => r == Err::<Vec<String>, ModeError>(e),
        },
{
    let (bake, debug) = match read_modes(env) {
        Ok(m) => m,
        Err(e) => return Err(e),
    };
    let cpus = cpu_count();
    Ok(rustc_args(args, bake, debug, cpus, gold))
}

/// The command that actually runs `name`. Where the shell layer is active
/// (`msys`), the version manager is installed there (`multirust`) and `name`
/// is a bare name, `name` runs through `bash` from the manager's directory;
/// otherwise it runs as it is. The result's arguments come before any other.
pub fn get_command(name: String, msys: bool, multirust: bool) -> (r: Invocation)
    ensures
        msys && multirust && is_bare_name(name@) ==> r.program@ == "bash"@
            && r.args.deep_view() == seq![shim_dir() + name@],
        !(msys && multirust && is_bare_name(name@)) ==> r.program@ == name@ && r.args.len()
            == 0,
{
    let bare = !contains_text(name.as_str(), "/") && !contains_text(name.as_str(), "\\");
    if msys && multirust && bare {
        let path = "c:/msys64/usr/local/bin/".to_owned().concat(name.as_str());
        let mut args: Vec<String> = Vec::new();
        args.push(path);
        assert(args.deep_view() =~= seq![shim_dir() + name@]);
        Invocation { program: "bash".to_owned(), args }
    } else {
        Invocation { program: name, args: Vec::new() }
    }
}

/// Decides the role of this process from `env` and returns what it spawns,
/// with `env` updated to the environment the child inherits. `args` are the
/// process's arguments without the program name, `this_exe` the path of this
/// tool, and `gold` whether the gold linker is installed.
///
/// Outside the compiler role: marks it and redirects the compiler at
/// `this_exe` (as `turn_on_rustc_proxy`), persists the modes and runs the
/// orchestrator (as `run_cargo`). In the compiler role: runs the real
/// compiler (as `run_rustc`), leaving `env` unchanged.
pub fn plan_invocation(env: &mut ProxyEnv, args: &[String], this_exe: String, gold: bool) -> (r:
    Result<Invocation, ModeError>)
    ensures
        old(env).proxy is None ==> {
            &&& r is Ok
            &&& r->Ok_0.program@ == cargo_name_of(*old(env))
            &&& r->Ok_0.args.deep_view() == orchestrator_args(args.deep_view())
            &&& final(env).proxy.deep_view() == Some("1"@)
            &&& final(env).saved_rustc.deep_view() == Some(var_or(old(env).rustc, "rustc"@))
            &&& final(env).rustc.deep_view() == Some(this_exe@)
            &&& final(env).cargo == old(env).cargo
            &&& final(env).bake_mode.deep_view() == Some(
                bake_name(bake_from_flags(args.deep_view())),
            )
            &&& final(env).debug_mode.deep_view() == Some(
                debug_name(debug_from_flags(args.deep_view())),
            )
        },
        old(env).proxy is Some ==> {
            &&& *final(env) == *old(env)
            &&& match modes_of(*old(env)) {
                Ok((b, d)) => r is Ok && r->Ok_0.program@ == rustc_name_of(*old(env)) && exists|
                    cpus: nat,
                |
                    cpus >= 1 && r->Ok_0.args.deep_view() == compiler_args(
                        args.deep_view(),
                        b,
                        d,
                        cpus,
                        gold,
                    ),
                Err(e) => r == Err::<Invocation, ModeError>(e),
            }
        },
{
    if !running_as_rustc_proxy(env) {
        turn_on_rustc_proxy(env, this_exe);
        let program = get_cargo_name(env);
        let args = run_cargo(env, args);
        Ok(Invocation { program, args })
    } else {
        let program = get_rustc_name(env);
        match run_rustc(env, args, gold) {
            Ok(args) => Ok(Invocation { program, args }),
            Err(e) => Err(e),
        }
    }
}

} // verus!
