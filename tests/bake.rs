use cargo_bake::channel::{
    get_bake_mode, get_cargo_name, get_debug_mode, get_rustc_name, persist_modes, read_modes,
    running_as_rustc_proxy, set_bake_mode, turn_on_rustc_proxy, ModeError, ProxyEnv,
};
use cargo_bake::modes::{
    bake_mode_args, bake_mode_name, cargo_args_for_bake_mode, codegen_units, debug_mode_args,
    debug_mode_name, get_bake_mode_from_args, get_debug_mode_from_args, parse_bake_mode,
    parse_debug_mode, BakeMode, DebugMode,
};
use cargo_bake::runner::{get_command, plan_invocation, run_cargo, run_rustc, rustc_args};
use cargo_bake::sanitize::{strip_bake_args, strip_opt_args};
use cargo_bake::text::{contains_text, same_text};

fn strings(v: &[&str]) -> Vec<String> {
    v.iter().map(|s| s.to_string()).collect()
}

const ALL_BAKE: [BakeMode; 4] = [BakeMode::Fast, BakeMode::Normal, BakeMode::Slow, BakeMode::Glacial];

#[test]
fn fast_flags_exact() {
    assert_eq!(
        bake_mode_args(BakeMode::Fast, 8, false),
        strings(&["-Copt-level=0", "-Ccodegen-units=4", "-Zno-verify"])
    );
}

#[test]
fn normal_flags_exact() {
    assert_eq!(
        bake_mode_args(BakeMode::Normal, 3, false),
        strings(&[
            "-Copt-level=1",
            "-Cinline-threshold=25",
            "-Cno-vectorize-loops",
            "-Ccodegen-units=3",
            "-Zno-verify"
        ])
    );
}

#[test]
fn slow_flags_exact() {
    assert_eq!(
        bake_mode_args(BakeMode::Slow, 4, true),
        strings(&[
            "-Copt-level=3",
            "-Cinline-threshold=275",
            "-Ccodegen-units=4",
            "-Clink-args=-fuse-ld=gold",
            "-Zno-verify"
        ])
    );
}

#[test]
fn glacial_flags_exact() {
    assert_eq!(
        bake_mode_args(BakeMode::Glacial, 2, true),
        strings(&[
            "-Copt-level=3",
            "-Cinline-threshold=275",
            "-Clto",
            "-Ccodegen-units=2",
            "-Clink-args=-fuse-ld=gold",
            "-Zno-verify"
        ])
    );
}

#[test]
fn bake_flags_same_on_repeated_calls() {
    for mode in ALL_BAKE {
        for cpus in [0usize, 1, 2, 7] {
            for gold in [false, true] {
                assert_eq!(bake_mode_args(mode, cpus, gold), bake_mode_args(mode, cpus, gold));
            }
        }
    }
}

#[test]
fn codegen_units_boundaries() {
    assert_eq!(codegen_units(0), 1);
    assert_eq!(codegen_units(1), 1);
    assert_eq!(codegen_units(3), 3);
    assert_eq!(codegen_units(4), 4);
    assert_eq!(codegen_units(64), 4);
    assert_eq!(codegen_units(usize::MAX), 4);
}

#[test]
fn single_cpu_gives_one_unit_flag() {
    for cpus in [0usize, 1] {
        let flags = bake_mode_args(BakeMode::Slow, cpus, false);
        assert!(flags.contains(&"-Ccodegen-units=1".to_string()));
        assert!(!flags.contains(&"-Ccodegen-units=4".to_string()));
    }
}

#[test]
fn debug_flags_exact() {
    assert_eq!(debug_mode_args(DebugMode::Off), strings(&["-Cdebuginfo=0"]));
    assert_eq!(debug_mode_args(DebugMode::On), strings(&["-Cdebuginfo=2"]));
}

#[test]
fn orchestrator_flags_omit_release_for_slow() {
    assert_eq!(cargo_args_for_bake_mode(BakeMode::Slow), Vec::<String>::new());
    for mode in [BakeMode::Fast, BakeMode::Normal, BakeMode::Glacial] {
        assert_eq!(cargo_args_for_bake_mode(mode), strings(&["--release"]));
    }
}

#[test]
fn mode_flags_are_stripped_in_order() {
    let args = strings(&["--fast", "-v", "--debug", "--features", "x", "--slow", "--glacial"]);
    assert_eq!(strip_bake_args(&args), strings(&["-v", "--features", "x"]));
    assert_eq!(strip_bake_args(&[]), Vec::<String>::new());
    let untouched = strings(&["--fastest", "-j4"]);
    assert_eq!(strip_bake_args(&untouched), untouched);
}

#[test]
fn stripping_mode_flags_is_idempotent() {
    let args = strings(&["build", "--fast", "--debug", "-v", "--fast", "--release"]);
    let once = strip_bake_args(&args);
    assert_eq!(strip_bake_args(&once), once);
}

#[test]
fn lone_debug_flag_removed() {
    let args = strings(&["--crate-name", "foo", "-g", "src/lib.rs"]);
    assert_eq!(strip_opt_args(&args), strings(&["--crate-name", "foo", "src/lib.rs"]));
}

#[test]
fn opt_level_pair_removed() {
    let args = strings(&["--crate-name", "foo", "-C", "opt-level=3", "src/lib.rs"]);
    assert_eq!(strip_opt_args(&args), strings(&["--crate-name", "foo", "src/lib.rs"]));
}

#[test]
fn opt_level_pair_at_end_removed() {
    let args = strings(&["src/lib.rs", "-C", "opt-level=2"]);
    assert_eq!(strip_opt_args(&args), strings(&["src/lib.rs"]));
    assert_eq!(strip_opt_args(&strings(&["-C", "opt-level=0"])), Vec::<String>::new());
}

#[test]
fn args_without_conflicts_unchanged() {
    let args = strings(&["--crate-name", "foo", "-C", "debuginfo=2", "src/lib.rs", "-C"]);
    assert_eq!(strip_opt_args(&args), args);
    assert_eq!(strip_opt_args(&[]), Vec::<String>::new());
}

#[test]
fn debug_flag_removed_before_pairs() {
    let args = strings(&["-C", "-g", "opt-level=1", "main.rs"]);
    assert_eq!(strip_opt_args(&args), strings(&["main.rs"]));
}

#[test]
fn fast_wins_over_slow() {
    assert_eq!(get_bake_mode_from_args(&strings(&["--slow", "--fast"])), BakeMode::Fast);
    assert_eq!(get_bake_mode_from_args(&strings(&["--glacial", "--slow"])), BakeMode::Slow);
    assert_eq!(get_bake_mode_from_args(&strings(&["--glacial"])), BakeMode::Glacial);
    assert_eq!(get_bake_mode_from_args(&strings(&["-v"])), BakeMode::Normal);
}

#[test]
fn debug_mode_from_flags() {
    assert_eq!(get_debug_mode_from_args(&strings(&["-v", "--debug"])), DebugMode::On);
    assert_eq!(get_debug_mode_from_args(&strings(&["-v"])), DebugMode::Off);
}

#[test]
fn mode_names_parse_back() {
    for mode in ALL_BAKE {
        assert_eq!(parse_bake_mode(bake_mode_name(mode)), Some(mode));
    }
    for mode in [DebugMode::Off, DebugMode::On] {
        assert_eq!(parse_debug_mode(debug_mode_name(mode)), Some(mode));
    }
    assert_eq!(bake_mode_name(BakeMode::Glacial), "glacial");
    assert_eq!(debug_mode_name(DebugMode::On), "on");
}

#[test]
fn unknown_mode_names_rejected() {
    assert_eq!(parse_bake_mode("Fast"), None);
    assert_eq!(parse_bake_mode(""), None);
    assert_eq!(parse_debug_mode("yes"), None);
}

#[test]
fn persisted_modes_read_back() {
    for bake in ALL_BAKE {
        for debug in [DebugMode::Off, DebugMode::On] {
            let mut env = ProxyEnv::empty();
            persist_modes(&mut env, bake, debug);
            assert_eq!(read_modes(&env), Ok((bake, debug)));
        }
    }
}

#[test]
fn missing_modes_are_errors() {
    let env = ProxyEnv::empty();
    assert_eq!(read_modes(&env), Err(ModeError::MissingBakeMode));
    let mut env = ProxyEnv::empty();
    set_bake_mode(&mut env, BakeMode::Slow);
    assert_eq!(get_bake_mode(&env), Ok(BakeMode::Slow));
    assert_eq!(read_modes(&env), Err(ModeError::MissingDebugMode));
}

#[test]
fn garbled_modes_are_errors() {
    let mut env = ProxyEnv::empty();
    env.bake_mode = Some("turbo".to_string());
    env.debug_mode = Some("on".to_string());
    assert_eq!(read_modes(&env), Err(ModeError::UnknownBakeMode));
    env.bake_mode = Some("fast".to_string());
    env.debug_mode = Some("maybe".to_string());
    assert_eq!(get_debug_mode(&env), Err(ModeError::UnknownDebugMode));
    assert_eq!(read_modes(&env), Err(ModeError::UnknownDebugMode));
}

#[test]
fn proxy_redirects_compiler() {
    let mut env = ProxyEnv::empty();
    assert!(!running_as_rustc_proxy(&env));
    env.rustc = Some("/opt/rust/bin/rustc".to_string());
    let saved = turn_on_rustc_proxy(&mut env, "/usr/local/bin/cargo-bake".to_string());
    assert_eq!(saved, "/opt/rust/bin/rustc");
    assert!(running_as_rustc_proxy(&env));
    assert_eq!(env.rustc.as_deref(), Some("/usr/local/bin/cargo-bake"));
    assert_eq!(get_rustc_name(&env), "/opt/rust/bin/rustc");
}

#[test]
fn proxy_saves_default_compiler() {
    let mut env = ProxyEnv::empty();
    let saved = turn_on_rustc_proxy(&mut env, "/bin/cargo-bake".to_string());
    assert_eq!(saved, "rustc");
    assert_eq!(env.saved_rustc.as_deref(), Some("rustc"));
    assert_eq!(env.proxy.as_deref(), Some("1"));
}

#[test]
fn tool_names_default() {
    let mut env = ProxyEnv::empty();
    assert_eq!(get_cargo_name(&env), "cargo");
    assert_eq!(get_rustc_name(&env), "rustc");
    env.cargo = Some("/home/u/.cargo/bin/cargo".to_string());
    assert_eq!(get_cargo_name(&env), "/home/u/.cargo/bin/cargo");
}

#[test]
fn orchestrator_runner_fast_scenario() {
    let mut env = ProxyEnv::empty();
    let forwarded = run_cargo(&mut env, &strings(&["build", "--fast", "-v"]));
    assert_eq!(read_modes(&env), Ok((BakeMode::Fast, DebugMode::Off)));
    assert_eq!(env.bake_mode.as_deref(), Some("fast"));
    assert_eq!(env.debug_mode.as_deref(), Some("off"));
    assert_eq!(forwarded, strings(&["build", "--release", "build", "-v"]));
}

#[test]
fn orchestrator_runner_slow_debug() {
    let mut env = ProxyEnv::empty();
    let forwarded = run_cargo(&mut env, &strings(&["--slow", "--debug", "-p", "foo"]));
    assert_eq!(read_modes(&env), Ok((BakeMode::Slow, DebugMode::On)));
    assert_eq!(forwarded, strings(&["build", "-p", "foo"]));
}

#[test]
fn compiler_runner_glacial_scenario() {
    let args = strings(&["-C", "opt-level=0", "main.rs"]);
    let out = rustc_args(&args, BakeMode::Glacial, DebugMode::On, 2, false);
    assert_eq!(
        out,
        strings(&[
            "main.rs",
            "-Copt-level=3",
            "-Cinline-threshold=275",
            "-Clto",
            "-Ccodegen-units=2",
            "-Zno-verify",
            "-Cdebuginfo=2"
        ])
    );
}

#[test]
fn compiler_runner_reads_persisted_modes() {
    let mut env = ProxyEnv::empty();
    persist_modes(&mut env, BakeMode::Glacial, DebugMode::On);
    let out = run_rustc(&env, &strings(&["-C", "opt-level=0", "main.rs"]), false).unwrap();
    assert_eq!(out.len(), 7);
    assert_eq!(out[0], "main.rs");
    assert_eq!(&out[1..4], &strings(&["-Copt-level=3", "-Cinline-threshold=275", "-Clto"])[..]);
    let units = ["-Ccodegen-units=1", "-Ccodegen-units=2", "-Ccodegen-units=3", "-Ccodegen-units=4"];
    assert!(units.contains(&out[4].as_str()));
    assert_eq!(&out[5..], &strings(&["-Zno-verify", "-Cdebuginfo=2"])[..]);
}

#[test]
fn compiler_runner_without_modes_fails() {
    let env = ProxyEnv::empty();
    assert_eq!(
        run_rustc(&env, &strings(&["main.rs"]), false).unwrap_err(),
        ModeError::MissingBakeMode
    );
}

#[test]
fn command_through_shell_shim() {
    let c = get_command("cargo".to_string(), true, true);
    assert_eq!(c.program, "bash");
    assert_eq!(c.args, strings(&["c:/msys64/usr/local/bin/cargo"]));
}

#[test]
fn command_runs_directly() {
    let c = get_command("c:\\rust\\cargo".to_string(), true, true);
    assert_eq!(c.program, "c:\\rust\\cargo");
    assert!(c.args.is_empty());
    let c = get_command("/usr/bin/rustc".to_string(), true, true);
    assert_eq!(c.program, "/usr/bin/rustc");
    let c = get_command("cargo".to_string(), false, true);
    assert_eq!(c.program, "cargo");
    assert!(c.args.is_empty());
    let c = get_command("cargo".to_string(), true, false);
    assert_eq!(c.program, "cargo");
}

#[test]
fn dispatch_orchestrator_then_compiler() {
    let mut env = ProxyEnv::empty();
    let first = plan_invocation(&mut env, &strings(&["--glacial", "--debug"]), "/bin/cb".to_string(), false)
        .unwrap();
    assert_eq!(first.program, "cargo");
    assert_eq!(first.args, strings(&["build", "--release"]));
    assert!(running_as_rustc_proxy(&env));
    assert_eq!(env.rustc.as_deref(), Some("/bin/cb"));

    let second = plan_invocation(&mut env, &strings(&["-g", "lib.rs"]), "/bin/cb".to_string(), true)
        .unwrap();
    assert_eq!(second.program, "rustc");
    assert_eq!(second.args[0], "lib.rs");
    assert!(second.args.contains(&"-Clto".to_string()));
    assert!(second.args.contains(&"-Clink-args=-fuse-ld=gold".to_string()));
    assert_eq!(second.args.last().unwrap(), "-Cdebuginfo=2");
}

#[test]
fn dispatch_compiler_role_without_modes() {
    let mut env = ProxyEnv::empty();
    env.proxy = Some("1".to_string());
    let r = plan_invocation(&mut env, &strings(&["lib.rs"]), "/bin/cb".to_string(), false);
    assert_eq!(r.unwrap_err(), ModeError::MissingBakeMode);
}

#[test]
fn text_helpers() {
    assert!(same_text("-C", "-C"));
    assert!(!same_text("-C", "-Copt"));
    assert!(contains_text("opt-level=3", "opt-level"));
    assert!(contains_text("codegen-opt-level", "opt-level"));
    assert!(!contains_text("opt-leve", "opt-level"));
    assert!(contains_text("abc", ""));
}
