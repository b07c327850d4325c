//! Shared cargo-binary discovery.
//!
//! Every cargo spawn resolves its binary through [`resolve_with`], so one
//! index build never mixes two cargo binaries. Resolution order (first
//! match wins):
//!
//! 1. `RUST_KNOWLEDGE_CARGO`, the explicit escape hatch. It suppresses the
//!    `+toolchain` argument: the caller controls the whole toolchain.
//! 2. `$CARGO`, the cargo that invoked us, for lookups that request no
//!    toolchain. A toolchain request skips this tier: `$CARGO` is a concrete
//!    toolchain binary that cannot honor the proxy-only `+<toolchain>`.
//! 3. `rustup which [--toolchain <t>] cargo`. The `+toolchain` argument is
//!    suppressed (the lookup already pins the toolchain), and the binary's
//!    directory is carried to be prepended to the child's `PATH`.
//! 4. `$CARGO_HOME/bin/cargo`.
//! 5. Plain `cargo` from `PATH`.
//!
//! Tiers 4 and 5 pass `+<toolchain>` when a toolchain is requested.
//! Empty or whitespace-only values count as unset.
use vstd::prelude::*;

use crate::paths::{is_file, join, join_path, parent, path_parent};
use crate::text::{
    lossy_text, opt_string_view, opt_view, push_str, strings_view, trim, trim_str, utf8_lossy,
};

verus! {

/// Which tier of the precedence order produced a resolved cargo.
#[derive(Clone, Copy, Debug, PartialEq, Eq, Structural)]
pub enum CargoSource {
    /// The `RUST_KNOWLEDGE_CARGO` environment variable.
    Explicit,
    /// The `$CARGO` environment variable.
    CargoEnv,
    /// `rustup which [--toolchain <t>] cargo`.
    Rustup,
    /// `$CARGO_HOME/bin/cargo`.
    CargoHome,
    /// Plain `cargo`, resolved from `PATH` at spawn time.
    Path,
}

/// A resolved cargo invocation: the binary, the arguments that precede the
/// real cargo arguments (at most one `+<toolchain>`), and the directory to
/// prepend to the child's `PATH` (rustup tier only).
#[derive(Clone, Debug, PartialEq, Eq)]
pub struct ResolvedCargo {
    /// Program to spawn: a path for tiers 1-4, bare `cargo` for tier 5.
    pub program: String,
    /// Arguments inserted before the real cargo arguments.
    pub pre_args: Vec<String>,
    /// Directory to prepend to the spawned process's `PATH`.
    pub path_prepend: Option<String>,
    /// Which precedence tier produced this invocation.
    pub source: CargoSource,
}

/// Everything [`resolve_with`] depends on. The two probes are called only
/// when resolution reaches their tier.
pub struct ResolveInputs<'a, R, H> where
    R: Fn(Option<&str>) -> Option<String>,
    H: Fn() -> Option<String>,
 {
    /// Requested toolchain (e.g. "nightly"); `None` = the active toolchain.
    pub toolchain: Option<&'a str>,
    /// Raw `RUST_KNOWLEDGE_CARGO` value.
    pub explicit_cargo: Option<&'a str>,
    /// Raw `$CARGO` value.
    pub cargo_env: Option<&'a str>,
    /// Asks rustup for the cargo of the given toolchain; `None` when rustup
    /// is absent or fails.
    pub rustup_which: &'a R,
    /// `$CARGO_HOME/bin/cargo` when it exists.
    pub cargo_home_bin: &'a H,
}

/// The trimmed value, or `None` when it is absent, empty or whitespace.
pub open spec fn non_empty_trimmed_spec(value: Option<Seq<char>>) -> Option<Seq<char>> {
    match value {
        Some(v) => if trim(v).len() > 0 {
            Some(trim(v))
        } else {
            None
        },
        None => None,
    }
}

/// `+<toolchain>` for a requested toolchain, nothing otherwise.
pub open spec fn toolchain_pre_args_spec(toolchain: Option<Seq<char>>) -> Seq<Seq<char>> {
    match toolchain {
        Some(t) => seq![seq!['+'] + t],
        None => Seq::empty(),
    }
}

/// The rustup tier's `PATH` prepend for a resolved binary: its parent
/// directory, unless there is none or it is empty.
pub open spec fn prepend_for(program: Seq<char>) -> Option<Seq<char>> {
    match path_parent(program) {
        Some(dir) => if dir.len() > 0 {
            Some(dir)
        } else {
            None
        },
        None => None,
    }
}

/// `r` is the invocation `(program, pre_args, path_prepend, source)`.
pub open spec fn is_invocation(
    r: ResolvedCargo,
    program: Seq<char>,
    pre_args: Seq<Seq<char>>,
    path_prepend: Option<Seq<char>>,
    source: CargoSource,
) -> bool {
    &&& r.program@ == program
    &&& strings_view(r.pre_args@) == pre_args
    &&& opt_string_view(r.path_prepend) == path_prepend
    &&& r.source == source
}

/// The precedence order, given the raw inputs and what the two probes
/// report (`rustup`: the rustup tier's answer; `home`: the cargo-home
/// tier's answer). A probe's answer only matters when resolution reaches it.
pub open spec fn resolution(
    r: ResolvedCargo,
    toolchain: Option<Seq<char>>,
    explicit: Option<Seq<char>>,
    cargo_env: Option<Seq<char>>,
    rustup: Option<Seq<char>>,
    home: Option<Seq<char>>,
) -> bool {
    let pre = toolchain_pre_args_spec(toolchain);
    if let Some(e) = non_empty_trimmed_spec(explicit) {
        is_invocation(r, e, Seq::empty(), None, CargoSource::Explicit)
    } else if toolchain is None && non_empty_trimmed_spec(cargo_env) is Some {
        is_invocation(
            r,
            non_empty_trimmed_spec(cargo_env)->0,
            pre,
            None,
            CargoSource::CargoEnv,
        )
    } else if rustup matches Some(p) && p.len() > 0 {
        is_invocation(r, rustup->0, Seq::empty(), prepend_for(rustup->0), CargoSource::Rustup)
    } else if let Some(h) = home {
        is_invocation(r, h, pre, None, CargoSource::CargoHome)
    } else {
        is_invocation(r, "cargo"@, pre, None, CargoSource::Path)
    }
}

/// Trims a value; `None` when it is unset, empty, or whitespace-only.
fn non_empty_trimmed(value: Option<&str>) -> (r: Option<String>)
    ensures
        opt_string_view(r) == non_empty_trimmed_spec(opt_view(value)),
{
    match value {
        Some(v) => {
            let t = trim_str(v);
            if t.as_str().is_empty() {
                None
            } else {
                Some(t)
            }
        },
        None => None,
    }
}

/// The proxy-style pre-arguments for a requested toolchain.
fn toolchain_pre_args(toolchain: Option<&str>) -> (r: Vec<String>)
    ensures
        strings_view(r@) == toolchain_pre_args_spec(opt_view(toolchain)),
{
    match toolchain {
        Some(t) => {
            let mut arg = String::new();
            crate::text::push_char(&mut arg, '+');
            push_str(&mut arg, t);
            let mut v: Vec<String> = Vec::new();
            v.push(arg);
            assert(strings_view(v@) =~= seq![seq!['+'] + t@]);
            v
        },
        None => {
            let v: Vec<String> = Vec::new();
            assert(strings_view(v@) =~= Seq::<Seq<char>>::empty());
            v
        },
    }
}

/// Pure resolution decision over injected inputs (see the module docs for
/// the precedence order). The rustup probe is asked for the requested
/// toolchain and the cargo-home probe takes no argument; the result follows
/// [`resolution`] for what they answered.
pub fn resolve_with<'a, R, H>(inputs: &ResolveInputs<'a, R, H>) -> (r: ResolvedCargo) where
    R: Fn(Option<&str>) -> Option<String>,
    H: Fn() -> Option<String>,

    requires
        forall|t: Option<&str>| call_requires(*inputs.rustup_which, (t,)),
        call_requires(*inputs.cargo_home_bin, ()),
    ensures
        exists|rustup: Option<String>, home: Option<String>|
            {
                &&& (non_empty_trimmed_spec(opt_view(inputs.explicit_cargo)) is None
                    && !(inputs.toolchain is None && non_empty_trimmed_spec(
                    opt_view(inputs.cargo_env),
                ) is Some)) ==> call_ensures(
                    *inputs.rustup_which,
                    (inputs.toolchain,),
                    rustup,
                )
                &&& (non_empty_trimmed_spec(opt_view(inputs.explicit_cargo)) is None
                    && !(inputs.toolchain is None && non_empty_trimmed_spec(
                    opt_view(inputs.cargo_env),
                ) is Some) && !(rustup matches Some(p) && p@.len() > 0)) ==> call_ensures(
                    *inputs.cargo_home_bin,
                    (),
                    home,
                )
                &&& resolution(
                    r,
                    opt_view(inputs.toolchain),
                    opt_view(inputs.explicit_cargo),
                    opt_view(inputs.cargo_env),
                    opt_string_view(rustup),
                    opt_string_view(home),
                )
            },
{
    let ghost toolchain = opt_view(inputs.toolchain);
    let ghost explicit = opt_view(inputs.explicit_cargo);
    let ghost cargo_env = opt_view(inputs.cargo_env);
    // Tier 1: the explicit override wins and suppresses `+toolchain`.
    if let Some(explicit_cargo) = non_empty_trimmed(inputs.explicit_cargo) {
        let r = ResolvedCargo {
            program: explicit_cargo,
            pre_args: Vec::new(),
            path_prepend: None,
            source: CargoSource::Explicit,
        };
        assert(strings_view(r.pre_args@) =~= Seq::<Seq<char>>::empty());
        assert(resolution(r, toolchain, explicit, cargo_env, None, None));
        return r;
    }
    let pre_args = toolchain_pre_args(inputs.toolchain);
    // Tier 2: the invoking cargo, for lookups that pinned no toolchain.
    if inputs.toolchain.is_none() {
        if let Some(env_cargo) = non_empty_trimmed(inputs.cargo_env) {
            let r = ResolvedCargo {
                program: env_cargo,
                pre_args,
                path_prepend: None,
                source: CargoSource::CargoEnv,
            };
            assert(resolution(r, toolchain, explicit, cargo_env, None, None));
            return r;
        }
    }
    // Tier 3: the cargo of the requested (or active) toolchain.
    let probed = (inputs.rustup_which)(inputs.toolchain);
    if let Some(path) = &probed {
        if !path.as_str().is_empty() {
            let path_prepend = match parent(path.as_str()) {
                Some(dir) => if dir.as_str().is_empty() {
                    None
                } else {
                    Some(dir)
                },
                None => None,
            };
            let r = ResolvedCargo {
                program: path.clone(),
                pre_args: Vec::new(),
                path_prepend,
                source: CargoSource::Rustup,
            };
            assert(strings_view(r.pre_args@) =~= Seq::<Seq<char>>::empty());
            assert(resolution(r, toolchain, explicit, cargo_env, opt_string_view(probed), None));
            return r;
        }
    }
    // Tier 4: cargo home.
    let home = (inputs.cargo_home_bin)();
    let ghost home_answer = home;
    if let Some(path) = home {
        let r = ResolvedCargo {
            program: path,
            pre_args,
            path_prepend: None,
            source: CargoSource::CargoHome,
        };
        assert(resolution(r, toolchain, explicit, cargo_env, opt_string_view(probed), opt_string_view(home_answer)));
        assert(call_ensures(*inputs.cargo_home_bin, (), home_answer));
        return r;
    }
    // Tier 5: plain PATH cargo.
    let r = ResolvedCargo {
        program: "cargo".to_owned(),
        pre_args,
        path_prepend: None,
        source: CargoSource::Path,
    };
    assert(resolution(r, toolchain, explicit, cargo_env, opt_string_view(probed), opt_string_view(home_answer)));
    r
}

/// A cargo resolution shared by every spawn of a process.
pub struct CachedCargo {
    resolved: ResolvedCargo,
}

impl CachedCargo {
    /// Wraps a resolution.
    pub fn new(resolved: ResolvedCargo) -> (r: CachedCargo)
        ensures
            r.spec_resolved() == resolved,
    {
        CachedCargo { resolved }
    }

    /// The resolution behind this value.
    pub closed spec fn spec_resolved(&self) -> ResolvedCargo {
        self.resolved
    }

    /// The resolved invocation.
    pub fn resolved(&self) -> (r: &ResolvedCargo)
        ensures
            *r == self.spec_resolved(),
    {
        &self.resolved
    }

    /// The invocation as an argv prefix, program first, for diagnostics.
    pub fn argv(&self) -> (r: Vec<String>)
        ensures
            strings_view(r@) == seq![self.spec_resolved().program@] + strings_view(
                self.spec_resolved().pre_args@,
            ),
    {
        let mut argv: Vec<String> = Vec::new();
        argv.push(self.resolved.program.clone());
        let mut i: usize = 0;
        while i < self.resolved.pre_args.len()
            invariant
                i <= self.resolved.pre_args@.len(),
                argv@.len() == i + 1,
                argv@[0]@ == self.resolved.program@,
                forall|k: int| 0 <= k < i ==> argv@[k + 1]@ == #[trigger] self.resolved.pre_args@[k]@,
            decreases self.resolved.pre_args@.len() - i,
        {
            argv.push(self.resolved.pre_args[i].clone());
            i = i + 1;
        }
        assert(strings_view(argv@) =~= seq![self.resolved.program@] + strings_view(
            self.resolved.pre_args@,
        )) by {
            assert forall|k: int| 0 <= k < argv@.len() implies strings_view(argv@)[k] == (seq![
                self.resolved.program@,
            ] + strings_view(self.resolved.pre_args@))[k] by {
                if k > 0 {
                    assert(argv@[(k - 1) + 1]@ == self.resolved.pre_args@[k - 1]@);
                }
            }
        }
        argv
    }
}

/// The version a `cargo --version` run reports: its trimmed standard
/// output when the run succeeded and printed something, `None` otherwise.
pub fn version_from_output(success: bool, stdout: &str) -> (r: Option<String>)
    ensures
        opt_string_view(r) == (if success && trim(stdout@).len() > 0 {
            Some(trim(stdout@))
        } else {
            None
        }),
{
    if !success {
        return None;
    }
    let version = trim_str(stdout);
    if version.as_str().is_empty() {
        None
    } else {
        Some(version)
    }
}

/// Only the rustup tier carries a `PATH` prepend: every other tier spawns a
/// binary that does its own toolchain handling.
pub proof fn law_only_rustup_prepends(
    r: ResolvedCargo,
    toolchain: Option<Seq<char>>,
    explicit: Option<Seq<char>>,
    cargo_env: Option<Seq<char>>,
    rustup: Option<Seq<char>>,
    home: Option<Seq<char>>,
)
    requires
        resolution(r, toolchain, explicit, cargo_env, rustup, home),
    ensures
        r.path_prepend is Some ==> r.source == CargoSource::Rustup,
{
}

/// An explicit cargo binary wins over every other tier and takes no
/// `+toolchain` argument.
pub proof fn law_explicit_cargo_wins(
    r: ResolvedCargo,
    toolchain: Option<Seq<char>>,
    explicit: Option<Seq<char>>,
    cargo_env: Option<Seq<char>>,
    rustup: Option<Seq<char>>,
    home: Option<Seq<char>>,
)
    requires
        resolution(r, toolchain, explicit, cargo_env, rustup, home),
        non_empty_trimmed_spec(explicit) is Some,
    ensures
        r.source == CargoSource::Explicit,
        r.pre_args@.len() == 0,
        r.program@ == trim(explicit->0),
{
    assert(strings_view(r.pre_args@).len() == r.pre_args@.len());
}

/// A requested toolchain skips `$CARGO`: the invoking toolchain's real
/// binary would reject the `+toolchain` argument.
pub proof fn law_toolchain_skips_cargo_env(
    r: ResolvedCargo,
    toolchain: Option<Seq<char>>,
    explicit: Option<Seq<char>>,
    cargo_env: Option<Seq<char>>,
    rustup: Option<Seq<char>>,
    home: Option<Seq<char>>,
)
    requires
        resolution(r, toolchain, explicit, cargo_env, rustup, home),
        toolchain is Some,
    ensures
        r.source != CargoSource::CargoEnv,
{
}

/// The arguments of `rustup which [--toolchain <t>] cargo`.
pub fn rustup_which_args(toolchain: Option<&str>) -> (r: Vec<String>)
    ensures
        strings_view(r@) == match opt_view(toolchain) {
            Some(t) => seq!["which"@, "--toolchain"@, t, "cargo"@],
            None => seq!["which"@, "cargo"@],
        },
{
    let mut args: Vec<String> = Vec::new();
    args.push("which".to_owned());
    match toolchain {
        Some(t) => {
            args.push("--toolchain".to_owned());
            args.push(t.to_owned());
        },
        None => {},
    }
    args.push("cargo".to_owned());
    assert(strings_view(args@) =~= match opt_view(toolchain) {
        Some(t) => seq!["which"@, "--toolchain"@, t, "cargo"@],
        None => seq!["which"@, "cargo"@],
    });
    args
}

/// The cargo a `rustup which` run reports: its decoded, trimmed standard
/// output when the run succeeded and printed something.
pub fn rustup_answer(success: bool, stdout: &[u8]) -> (r: Option<String>)
    ensures
        opt_string_view(r) == if success && trim(utf8_lossy(stdout@)).len() > 0 {
            Some(trim(utf8_lossy(stdout@)))
        } else {
            None
        },
{
    if !success {
        return None;
    }
    let text = lossy_text(stdout);
    let path = trim_str(text.as_str());
    if path.as_str().is_empty() {
        None
    } else {
        Some(path)
    }
}

/// The cargo home directory as cargo computes it (`home::cargo_home`):
/// `$CARGO_HOME`, else `$HOME/.cargo`. It depends on the environment, so
/// nothing is promised of it.
#[verifier::external_body]
fn cargo_home_dir() -> (r: Option<String>) {
    home::cargo_home().ok().map(|p| p.to_string_lossy().into_owned())
}

/// `<cargo home>/bin/cargo<exe_suffix>` when that file exists.
pub fn cargo_home_bin(exe_suffix: &str) -> (r: Option<String>)
    ensures
        r matches Some(p) ==> exists|home: Seq<char>|
            p@ == join(join(home, "bin"@), "cargo"@ + exe_suffix@),
{
    match cargo_home_dir() {
        None => None,
        Some(home) => {
            let bin_dir = join_path(home.as_str(), "bin");
            let mut file = "cargo".to_owned();
            push_str(&mut file, exe_suffix);
            let bin = join_path(bin_dir.as_str(), file.as_str());
            if is_file(bin.as_str()) {
                Some(bin)
            } else {
                None
            }
        },
    }
}

} // verus!
