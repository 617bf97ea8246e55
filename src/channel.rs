//! The process-environment variables through which an orchestrator-role
//! process hands its state to the compiler-role processes below it.
use vstd::prelude::*;
use crate::modes::{
    bake_mode_name, bake_name, debug_mode_name, debug_name, parse_bake, parse_bake_mode,
    parse_debug, parse_debug_mode, BakeMode, DebugMode,
};

verus! {

/// A snapshot of the environment variables this tool reads or writes; `None`
/// is an unset variable. A child process is spawned with these values.
#[derive(Debug)]
pub struct ProxyEnv {
    /// Set once the compiler path points back at this tool (`CARGO_BAKE_PROXY`).
    pub proxy: Option<String>,
    /// The orchestrator to run (`CARGO`).
    pub cargo: Option<String>,
    /// The compiler the orchestrator runs (`RUSTC`).
    pub rustc: Option<String>,
    /// The real compiler, saved before `rustc` was redirected (`CARGO_BAKE_RUSTC`).
    pub saved_rustc: Option<String>,
    /// The persisted bake mode (`CARGO_BAKE_MODE`).
    pub bake_mode: Option<String>,
    /// The persisted debug mode (`CARGO_BAKE_DEBUG_MODE`).
    pub debug_mode: Option<String>,
}

/// Why the persisted modes could not be read back.
#[derive(Clone, Copy, Debug, PartialEq, Eq, Structural)]
pub enum ModeError {
    MissingBakeMode,
    UnknownBakeMode,
    MissingDebugMode,
    UnknownDebugMode,
}

/// The persisted bake mode of `env`, or why there is none.
pub open spec fn bake_mode_of(env: ProxyEnv) -> Result<BakeMode, ModeError> {
    match env.bake_mode {
        None => Err(ModeError::MissingBakeMode),
        Some(s) => match parse_bake(s@) {
            Some(m) => Ok(m),
            None => Err(ModeError::UnknownBakeMode),
        },
    }
}

/// The persisted debug mode of `env`, or why there is none.
pub open spec fn debug_mode_of(env: ProxyEnv) -> Result<DebugMode, ModeError> {
    match env.debug_mode {
        None => Err(ModeError::MissingDebugMode),
        Some(s) => match parse_debug(s@) {
            Some(m) => Ok(m),
            None => Err(ModeError::UnknownDebugMode),
        },
    }
}

/// Both persisted modes of `env`; the bake mode's error comes first.
pub open spec fn modes_of(env: ProxyEnv) -> Result<(BakeMode, DebugMode), ModeError> {
    match bake_mode_of(env) {
        Err(e) => Err(e),
        Ok(b) => match debug_mode_of(env) {
            Err(e) => Err(e),
            Ok(d) => Ok((b, d)),
        },
    }
}

/// The text of an optional variable, or `default` where it is unset.
pub open spec fn var_or(v: Option<String>, default: Seq<char>) -> Seq<char> {
    match v {
        Some(s) => s@,
        None => default,
    }
}

/// The orchestrator that an orchestrator-role process runs.
pub open spec fn cargo_name_of(env: ProxyEnv) -> Seq<char> {
    var_or(env.cargo, "cargo"@)
}

/// The real compiler that a compiler-role process runs.
pub open spec fn rustc_name_of(env: ProxyEnv) -> Seq<char> {
    var_or(env.saved_rustc, "rustc"@)
}

fn var_or_default(v: &Option<String>, default: &str) -> (r: String)
    ensures
        r@ == var_or(*v, default@),
{
    match v {
        Some(s) => s.clone(),
        None => default.to_owned(),
    }
}

impl ProxyEnv {
    /// An environment in which none of the variables is set.
    pub fn empty() -> (r: ProxyEnv)
        ensures
            r.proxy is None,
            r.cargo is None,
            r.rustc is None,
            r.saved_rustc is None,
            r.bake_mode is None,
            r.debug_mode is None,
    {
        ProxyEnv {
            proxy: None,
            cargo: None,
            rustc: None,
            saved_rustc: None,
            bake_mode: None,
            debug_mode: None,
        }
    }
}

/// Whether this process was started by the orchestrator as its compiler.
pub fn running_as_rustc_proxy(env: &ProxyEnv) -> (r: bool)
    ensures
        r == env.proxy is Some,
{
    env.proxy.is_some()
}

/// Marks the compiler role for the processes spawned with `env`, saves the
/// compiler the orchestrator would have run (its configured one, else
/// `rustc`) and points the orchestrator at `this_exe` instead. Returns the
/// saved compiler.
pub fn turn_on_rustc_proxy(env: &mut ProxyEnv, this_exe: String) -> (r: String)
    ensures
        r@ == var_or(old(env).rustc, "rustc"@),
        final(env).proxy.deep_view() == Some("1"@),
        final(env).saved_rustc.deep_view() == Some(r@),
        final(env).rustc.deep_view() == Some(this_exe@),
        final(env).cargo == old(env).cargo,
        final(env).bake_mode == old(env).bake_mode,
        final(env).debug_mode == old(env).debug_mode,
{
    let saved = var_or_default(&env.rustc, "rustc");
    env.proxy = Some("1".to_owned());
    env.saved_rustc = Some(saved.clone());
    env.rustc = Some(this_exe);
    saved
}

/// The orchestrator to run: the configured one, else `cargo`.
pub fn get_cargo_name(env: &ProxyEnv) -> (r: String)
    ensures
        r@ == cargo_name_of(*env),
{
    var_or_default(&env.cargo, "cargo")
}

/// The real compiler to run: the saved one, else `rustc`.
pub fn get_rustc_name(env: &ProxyEnv) -> (r: String)
    ensures
        r@ == rustc_name_of(*env),
{
    var_or_default(&env.saved_rustc, "rustc")
}

/// Persists `mode` under its canonical name.
pub fn set_bake_mode(env: &mut ProxyEnv, mode: BakeMode)
    ensures
        final(env).bake_mode.deep_view() == Some(bake_name(mode)),
        final(env).proxy == old(env).proxy,
        final(env).cargo == old(env).cargo,
        final(env).rustc == old(env).rustc,
        final(env).saved_rustc == old(env).saved_rustc,
        final(env).debug_mode == old(env).debug_mode,
{
    env.bake_mode = Some(bake_mode_name(mode).to_owned());
}

/// Persists `mode` under its canonical name.
pub fn set_debug_mode(env: &mut ProxyEnv, mode: DebugMode)
    ensures
        final(env).debug_mode.deep_view() == Some(debug_name(mode)),
        final(env).proxy == old(env).proxy,
        final(env).cargo == old(env).cargo,
        final(env).rustc == old(env).rustc,
        final(env).saved_rustc == old(env).saved_rustc,
        final(env).bake_mode == old(env).bake_mode,
{
    env.debug_mode = Some(debug_mode_name(mode).to_owned());
}

/// The persisted bake mode; an error where it is unset or not a canonical name.
pub fn get_bake_mode(env: &ProxyEnv) -> (r: Result<BakeMode, ModeError>)
    ensures
        r == bake_mode_of(*env),
{
    match &env.bake_mode {
        None => Err(ModeError::MissingBakeMode),
        Some(s) => match parse_bake_mode(s.as_str()) {
            Some(m) => Ok(m),
            None => Err(ModeError::UnknownBakeMode),
        },
    }
}

/// The persisted debug mode; an error where it is unset or not a canonical name.
pub fn get_debug_mode(env: &ProxyEnv) -> (r: Result<DebugMode, ModeError>)
    ensures
        r == debug_mode_of(*env),
{
    match &env.debug_mode {
        None => Err(ModeError::MissingDebugMode),
        Some(s) => match parse_debug_mode(s.as_str()) {
            Some(m) => Ok(m),
            None => Err(ModeError::UnknownDebugMode),
        },
    }
}

/// Persists both modes for the processes spawned with `env`.
pub fn persist_modes(env: &mut ProxyEnv, bake: BakeMode, debug: DebugMode)
    ensures
        final(env).bake_mode.deep_view() == Some(bake_name(bake)),
        final(env).debug_mode.deep_view() == Some(debug_name(debug)),
        final(env).proxy == old(env).proxy,
        final(env).cargo == old(env).cargo,
        final(env).rustc == old(env).rustc,
        final(env).saved_rustc == old(env).saved_rustc,
{
    set_bake_mode(env, bake);
    set_debug_mode(env, debug);
}

/// Reads both persisted modes back.
pub fn read_modes(env: &ProxyEnv) -> (r: Result<(BakeMode, DebugMode), ModeError>)
    ensures
        r == modes_of(*env),
{
    let b = match get_bake_mode(env) {
        Ok(b) => b,
        Err(e) => return Err(e),
    };
    let d = match get_debug_mode(env) {
        Ok(d) => d,
        Err(e) => return Err(e),
    };
    Ok((b, d))
}

/// Modes persisted into an environment are read back unchanged from it.
pub proof fn lemma_persisted_modes_read_back(env: ProxyEnv, bake: BakeMode, debug: DebugMode)
    requires
        env.bake_mode.deep_view() == Some(bake_name(bake)),
        env.debug_mode.deep_view() == Some(debug_name(debug)),
    ensures
        modes_of(env) == Ok::<(BakeMode, DebugMode), ModeError>((bake, debug)),
{
    crate::modes::lemma_names_parse_back(bake, debug);
}

} // verus!
