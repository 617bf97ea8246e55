//! The bake and debug modes and the compiler flags each of them selects.
use vstd::prelude::*;
use crate::text::same_text;

verus! {

/// An optimisation profile for the real compiler, from quickest to build to
/// quickest to run.
#[derive(Clone, Copy, Debug, PartialEq, Eq, Structural)]
pub enum BakeMode {
    Fast,
    Normal,
    Slow,
    Glacial,
}

/// How much debug information the real compiler emits.
#[derive(Clone, Copy, Debug, PartialEq, Eq, Structural)]
pub enum DebugMode {
    Off,
    On,
}

/// Codegen units stop paying off beyond this many.
pub const MAX_CODEGEN_UNITS: usize = 4;

/// The optimisation flags proper of each bake mode, in order.
pub open spec fn basic_flags(mode: BakeMode) -> Seq<Seq<char>> {
    match mode {
        BakeMode::Fast => seq!["-Copt-level=0"@],
        BakeMode::Normal => seq!["-Copt-level=1"@, "-Cinline-threshold=25"@, "-Cno-vectorize-loops"@],
        BakeMode::Slow => seq!["-Copt-level=3"@, "-Cinline-threshold=275"@],
        BakeMode::Glacial => seq!["-Copt-level=3"@, "-Cinline-threshold=275"@, "-Clto"@],
    }
}

/// Number of codegen units for a probed CPU count: the count capped at
/// `MAX_CODEGEN_UNITS`, and 1 where the probe found nothing.
pub open spec fn units_for(cpus: nat) -> nat {
    if cpus == 0 {
        1
    } else if cpus > MAX_CODEGEN_UNITS {
        MAX_CODEGEN_UNITS as nat
    } else {
        cpus
    }
}

/// The flag that requests `units` codegen units (`units` is between 1 and 4).
pub open spec fn units_flag(units: nat) -> Seq<char> {
    if units == 1 {
        "-Ccodegen-units=1"@
    } else if units == 2 {
        "-Ccodegen-units=2"@
    } else if units == 3 {
        "-Ccodegen-units=3"@
    } else {
        "-Ccodegen-units=4"@
    }
}

/// The flag that selects the gold linker.
pub open spec fn gold_flag() -> Seq<char> {
    "-Clink-args=-fuse-ld=gold"@
}

/// The flag that turns off the compiler's verification pass.
pub open spec fn no_verify_flag() -> Seq<char> {
    "-Zno-verify"@
}

/// The whole flag list of a bake mode: its own flags, then the parallelism
/// flag, then the linker flag where the gold linker is present, then the flag
/// that disables verification.
pub open spec fn bake_flags(mode: BakeMode, cpus: nat, gold: bool) -> Seq<Seq<char>> {
    basic_flags(mode) + seq![units_flag(units_for(cpus))] + (if gold {
        seq![gold_flag()]
    } else {
        Seq::empty()
    }) + seq![no_verify_flag()]
}

/// The debug-information flags of a debug mode.
pub open spec fn debug_flags(mode: DebugMode) -> Seq<Seq<char>> {
    match mode {
        DebugMode::Off => seq!["-Cdebuginfo=0"@],
        DebugMode::On => seq!["-Cdebuginfo=2"@],
    }
}

/// The flags handed to the orchestrator itself: a release build for every
/// mode but `Slow`, which already asks the compiler for full optimisation.
pub open spec fn orchestrator_flags(mode: BakeMode) -> Seq<Seq<char>> {
    match mode {
        BakeMode::Slow => Seq::empty(),
        _ => seq!["--release"@],
    }
}

/// The canonical name under which a bake mode crosses a process boundary.
pub open spec fn bake_name(mode: BakeMode) -> Seq<char> {
    match mode {
        BakeMode::Fast => "fast"@,
        BakeMode::Normal => "normal"@,
        BakeMode::Slow => "slow"@,
        BakeMode::Glacial => "glacial"@,
    }
}

/// The canonical name under which a debug mode crosses a process boundary.
pub open spec fn debug_name(mode: DebugMode) -> Seq<char> {
    match mode {
        DebugMode::Off => "off"@,
        DebugMode::On => "on"@,
    }
}

/// The bake mode whose canonical name is `s`, if any.
pub open spec fn parse_bake(s: Seq<char>) -> Option<BakeMode> {
    if s == "fast"@ {
        Some(BakeMode::Fast)
    } else if s == "normal"@ {
        Some(BakeMode::Normal)
    } else if s == "slow"@ {
        Some(BakeMode::Slow)
    } else if s == "glacial"@ {
        Some(BakeMode::Glacial)
    } else {
        None
    }
}

/// The debug mode whose canonical name is `s`, if any.
pub open spec fn parse_debug(s: Seq<char>) -> Option<DebugMode> {
    if s == "off"@ {
        Some(DebugMode::Off)
    } else if s == "on"@ {
        Some(DebugMode::On)
    } else {
        None
    }
}

/// Relies on `num_cpus::get`: the number of logical CPUs available to this
/// process, which its documentation promises is at least 1.
#[verifier::external_body]
pub(crate) fn cpu_count() -> (r: usize)
    ensures
        r >= 1,
{
    num_cpus::get()
}

/// Number of codegen units for a probed CPU count.
pub fn codegen_units(cpus: usize) -> (r: usize)
    ensures
        r == units_for(cpus as nat),
        1 <= r <= MAX_CODEGEN_UNITS,
{
    if cpus == 0 {
        1
    } else if cpus > MAX_CODEGEN_UNITS {
        MAX_CODEGEN_UNITS
    } else {
        cpus
    }
}

fn units_arg(units: usize) -> (r: String)
    requires
        1 <= units <= MAX_CODEGEN_UNITS,
    ensures
        r@ == units_flag(units as nat),
{
    if units == 1 {
        "-Ccodegen-units=1".to_owned()
    } else if units == 2 {
        "-Ccodegen-units=2".to_owned()
    } else if units == 3 {
        "-Ccodegen-units=3".to_owned()
    } else {
        "-Ccodegen-units=4".to_owned()
    }
}

/// The compiler flags of `mode` on a host with `cpus` CPUs, where `gold`
/// tells whether the gold linker is installed.
pub fn bake_mode_args(mode: BakeMode, cpus: usize, gold: bool) -> (r: Vec<String>)
    ensures
        r.deep_view() == bake_flags(mode, cpus as nat, gold),
{
    let mut r: Vec<String> = Vec::new();
    match mode {
        BakeMode::Fast => {
            r.push("-Copt-level=0".to_owned());
        },
        BakeMode::Normal => {
            r.push("-Copt-level=1".to_owned());
            r.push("-Cinline-threshold=25".to_owned());
            r.push("-Cno-vectorize-loops".to_owned());
        },
        BakeMode::Slow => {
            r.push("-Copt-level=3".to_owned());
            r.push("-Cinline-threshold=275".to_owned());
        },
        BakeMode::Glacial => {
            r.push("-Copt-level=3".to_owned());
            r.push("-Cinline-threshold=275".to_owned());
            r.push("-Clto".to_owned());
        },
    }
    assert(r.deep_view() =~= basic_flags(mode));
    r.push(units_arg(codegen_units(cpus)));
    if gold {
        r.push("-Clink-args=-fuse-ld=gold".to_owned());
    }
    r.push("-Zno-verify".to_owned());
    assert(r.deep_view() =~= bake_flags(mode, cpus as nat, gold));
    r
}

/// Two resolutions of the same mode, CPU count and linker presence give the
/// same flags in the same order: what `bake_mode_args` returns depends on its
/// arguments alone.
pub proof fn lemma_bake_flags_deterministic(
    mode: BakeMode,
    cpus: nat,
    gold: bool,
    first: Seq<Seq<char>>,
    second: Seq<Seq<char>>,
)
    requires
        first == bake_flags(mode, cpus, gold),
        second == bake_flags(mode, cpus, gold),
    ensures
        first == second,
        forall|i: int| 0 <= i < first.len() ==> first[i] == second[i],
{
}

/// The debug-information flags of `mode`.
pub fn debug_mode_args(mode: DebugMode) -> (r: Vec<String>)
    ensures
        r.deep_view() == debug_flags(mode),
{
    let mut r: Vec<String> = Vec::new();
    match mode {
        DebugMode::Off => r.push("-Cdebuginfo=0".to_owned()),
        DebugMode::On => r.push("-Cdebuginfo=2".to_owned()),
    }
    assert(r.deep_view() =~= debug_flags(mode));
    r
}

/// The flags handed to the orchestrator for `mode`.
pub fn cargo_args_for_bake_mode(mode: BakeMode) -> (r: Vec<String>)
    ensures
        r.deep_view() == orchestrator_flags(mode),
{
    let mut r: Vec<String> = Vec::new();
    match mode {
        BakeMode::Slow => {},
        _ => r.push("--release".to_owned()),
    }
    assert(r.deep_view() =~= orchestrator_flags(mode));
    r
}

/// The bake mode that the flags `args` select: `--fast` wins over `--slow`,
/// which wins over `--glacial`; without any of them, `Normal`.
pub open spec fn bake_from_flags(args: Seq<Seq<char>>) -> BakeMode {
    if args.contains("--fast"@) {
        BakeMode::Fast
    } else if args.contains("--slow"@) {
        BakeMode::Slow
    } else if args.contains("--glacial"@) {
        BakeMode::Glacial
    } else {
        BakeMode::Normal
    }
}

/// The debug mode that the flags `args` select: `On` where `--debug` is among them.
pub open spec fn debug_from_flags(args: Seq<Seq<char>>) -> DebugMode {
    if args.contains("--debug"@) {
        DebugMode::On
    } else {
        DebugMode::Off
    }
}

fn has_arg(args: &[String], flag: &str) -> (r: bool)
    ensures
        r == args.deep_view().contains(flag@),
{
    let ghost all = args.deep_view();
    let mut i: usize = 0;
    while i < args.len()
        invariant
            all == args.deep_view(),
            i <= args.len(),
            forall|k: int| 0 <= k < i ==> all[k] != flag@,
        decreases args.len() - i,
    {
        if same_text(args[i].as_str(), flag) {
            assert(all[i as int] == flag@);
            return true;
        }
        i = i + 1;
    }
    false
}

/// The bake mode selected by the flags among `args`.
pub fn get_bake_mode_from_args(args: &[String]) -> (r: BakeMode)
    ensures
        r == bake_from_flags(args.deep_view()),
{
    if has_arg(args, "--fast") {
        BakeMode::Fast
    } else if has_arg(args, "--slow") {
        BakeMode::Slow
    } else if has_arg(args, "--glacial") {
        BakeMode::Glacial
    } else {
        BakeMode::Normal
    }
}

/// The debug mode selected by the flags among `args`.
pub fn get_debug_mode_from_args(args: &[String]) -> (r: DebugMode)
    ensures
        r == debug_from_flags(args.deep_view()),
{
    if has_arg(args, "--debug") {
        DebugMode::On
    } else {
        DebugMode::Off
    }
}

/// The canonical name of a bake mode.
pub fn bake_mode_name(mode: BakeMode) -> (r: &'static str)
    ensures
        r@ == bake_name(mode),
{
    match mode {
        BakeMode::Fast => "fast",
        BakeMode::Normal => "normal",
        BakeMode::Slow => "slow",
        BakeMode::Glacial => "glacial",
    }
}

/// The canonical name of a debug mode.
pub fn debug_mode_name(mode: DebugMode) -> (r: &'static str)
    ensures
        r@ == debug_name(mode),
{
    match mode {
        DebugMode::Off => "off",
        DebugMode::On => "on",
    }
}

/// The bake mode named `s`; `None` for any text that is not a canonical name.
pub fn parse_bake_mode(s: &str) -> (r: Option<BakeMode>)
    ensures
        r == parse_bake(s@),
{
    if same_text(s, "fast") {
        Some(BakeMode::Fast)
    } else if same_text(s, "normal") {
        Some(BakeMode::Normal)
    } else if same_text(s, "slow") {
        Some(BakeMode::Slow)
    } else if same_text(s, "glacial") {
        Some(BakeMode::Glacial)
    } else {
        None
    }
}

/// The debug mode named `s`; `None` for any text that is not a canonical name.
pub fn parse_debug_mode(s: &str) -> (r: Option<DebugMode>)
    ensures
        r == parse_debug(s@),
{
    if same_text(s, "off") {
        Some(DebugMode::Off)
    } else if same_text(s, "on") {
        Some(DebugMode::On)
    } else {
        None
    }
}

/// Parsing the canonical name of a mode gives that mode back.
pub proof fn lemma_names_parse_back(b: BakeMode, d: DebugMode)
    ensures
        parse_bake(bake_name(b)) == Some(b),
        parse_debug(debug_name(d)) == Some(d),
{
    reveal_strlit("fast");
    reveal_strlit("normal");
    reveal_strlit("slow");
    reveal_strlit("glacial");
    reveal_strlit("off");
    reveal_strlit("on");
    assert("fast"@[0] != "normal"@[0] && "fast"@[0] != "slow"@[0] && "fast"@[0] != "glacial"@[0]);
    assert("normal"@[0] != "slow"@[0] && "normal"@[0] != "glacial"@[0] && "slow"@[0]
        != "glacial"@[0]);
    assert("off"@.len() != "on"@.len());
}

/// Where `--fast` is among the flags, the bake mode is `Fast`, whatever other
/// mode flag (`--slow` among them) stands beside it.
pub proof fn lemma_fast_takes_precedence(args: Seq<Seq<char>>)
    requires
        args.contains("--fast"@),
    ensures
        bake_from_flags(args) == BakeMode::Fast,
{
}

} // verus!
