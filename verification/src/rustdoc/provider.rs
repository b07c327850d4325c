//! Locating and generating rustdoc JSON artifacts.
//!
//! Generation runs `cargo rustdoc -p name@version --lib -- -Zunstable-options
//! --output-format json`; the artifact appears at
//! `<target-dir>/doc/<crate-name>.json`, where two versions of one crate
//! overwrite each other, so each is copied to a version-named file in the
//! artifact directory right after it is generated. The decisions of a
//! generation run live here; running the commands and copying files is the
//! caller's part.
use vstd::prelude::*;

use crate::cargo::{cargo_choice_spec, resolve_cargo, CargoUniverse, Package, Target, TargetKind};
use crate::model::{display_spec, PackageIdentity};
use crate::paths::{is_file, join, join_path};
use crate::text::{
    chars_of, decimal, decimal_string, join as join_text, join_strings, lossy_text, opt_string_view,
    opt_view, push_str, string_of, strings_view, to_owned, trim, trim_str, utf8_lossy,
};

verus! {

/// A rustdoc JSON artifact for one resolved package.
#[derive(Clone, Debug)]
pub struct RustdocArtifact {
    pub package: PackageIdentity,
    pub path: String,
    /// Output of the cargo version query (e.g. "cargo 1.100.0-nightly (..)").
    pub cargo_version: Option<String>,
}

/// Result of a generation run over a set of packages.
#[derive(Debug)]
pub struct GeneratedRustdocs {
    pub artifacts: Vec<RustdocArtifact>,
    /// (package spec, reason) for every package where generation was
    /// attempted and failed.
    pub skipped: Vec<(String, String)>,
    /// Packages that structurally cannot have rustdoc JSON (e.g. binary-only
    /// crates). Benign: they may still have README documentation.
    pub unsupported: Vec<String>,
}

impl Default for GeneratedRustdocs {
    fn default() -> (r: Self)
        ensures
            r.artifacts@.len() == 0,
            r.skipped@.len() == 0,
            r.unsupported@.len() == 0,
    {
        GeneratedRustdocs { artifacts: Vec::new(), skipped: Vec::new(), unsupported: Vec::new() }
    }
}

/// The plain values of an artifact: package identity fields, path and cargo
/// version.
pub open spec fn artifact_view(a: RustdocArtifact) -> (
    Seq<char>,
    Seq<char>,
    Seq<char>,
    Option<Seq<char>>,
    Seq<char>,
    Seq<char>,
    Option<Seq<char>>,
) {
    (
        a.package.package_id@,
        a.package.name@,
        a.package.version@,
        opt_string_view(a.package.source),
        a.package.manifest_path@,
        a.path@,
        opt_string_view(a.cargo_version),
    )
}

/// The views of skipped entries.
pub open spec fn pairs_view(v: Seq<(String, String)>) -> Seq<(Seq<char>, Seq<char>)> {
    v.map_values(|e: (String, String)| (e.0@, e.1@))
}

/// The views of artifacts.
pub open spec fn artifacts_view(v: Seq<RustdocArtifact>) -> Seq<
    (Seq<char>, Seq<char>, Seq<char>, Option<Seq<char>>, Seq<char>, Seq<char>, Option<Seq<char>>),
> {
    v.map_values(|a: RustdocArtifact| artifact_view(a))
}

/// The artifact of `pkg` at `path`.
pub open spec fn artifact_of(pkg: Package, path: Seq<char>, cargo_version: Option<Seq<char>>) -> (
    Seq<char>,
    Seq<char>,
    Seq<char>,
    Option<Seq<char>>,
    Seq<char>,
    Seq<char>,
    Option<Seq<char>>,
) {
    (
        pkg.id@,
        pkg.name@,
        pkg.version@,
        opt_string_view(pkg.source),
        pkg.manifest_path@,
        path,
        cargo_version,
    )
}

/// `name-version.json`, the artifact file name of a package.
pub open spec fn artifact_file_name(pkg: Package) -> Seq<char> {
    pkg.name@ + "-"@ + pkg.version@ + ".json"@
}

/// The cargo invocation prefix: an explicit cargo binary alone (the caller
/// then controls the toolchain), else `cargo`, with `+toolchain` when one
/// is set.
pub open spec fn argv_spec(cargo: Option<Seq<char>>, toolchain: Option<Seq<char>>) -> Seq<
    Seq<char>,
> {
    match cargo {
        Some(c) => seq![c],
        None => match toolchain {
            Some(t) => seq!["cargo"@, "+"@ + t],
            None => seq!["cargo"@],
        },
    }
}

/// The arguments of a `cargo rustdoc` run for a package spec.
pub open spec fn rustdoc_args_spec(spec: Seq<char>) -> Seq<Seq<char>> {
    seq![
        "rustdoc"@,
        "-p"@,
        spec,
        "--lib"@,
        "--"@,
        "-Zunstable-options"@,
        "--output-format"@,
        "json"@,
    ]
}

/// Whether a target kind produces a library rustdoc can document.
pub open spec fn is_lib_kind(k: TargetKind) -> bool {
    match k {
        TargetKind::Lib | TargetKind::RLib | TargetKind::DyLib | TargetKind::CDyLib
        | TargetKind::StaticLib | TargetKind::ProcMacro => true,
        _ => false,
    }
}

/// Whether a target has a library kind.
pub open spec fn is_lib_target(t: Target) -> bool {
    exists|j: int| 0 <= j < t.kinds@.len() && is_lib_kind(#[trigger] t.kinds@[j])
}

/// The position of the first library target.
pub open spec fn first_lib_target(ts: Seq<Target>) -> Option<int>
    decreases ts.len(),
{
    if ts.len() == 0 {
        None
    } else if is_lib_target(ts[0]) {
        Some(0)
    } else {
        match first_lib_target(ts.drop_first()) {
            Some(j) => Some(j + 1),
            None => None,
        }
    }
}

/// The crate name of a package's library target (the rustdoc output file
/// name), when it has one.
pub open spec fn lib_name_spec(pkg: Package) -> Option<Seq<char>> {
    match first_lib_target(pkg.targets@) {
        Some(j) => Some(pkg.targets@[j].name@),
        None => None,
    }
}

/// The number of UTF-8 bytes of a character.
pub open spec fn utf8_len(c: char) -> nat {
    if (c as u32) < 0x80 {
        1
    } else if (c as u32) < 0x800 {
        2
    } else if (c as u32) < 0x10000 {
        3
    } else {
        4
    }
}

/// The number of UTF-8 bytes of a text.
pub open spec fn utf8_bytes(cs: Seq<char>) -> nat
    decreases cs.len(),
{
    if cs.len() == 0 {
        0
    } else {
        utf8_bytes(cs.drop_last()) + utf8_len(cs.last())
    }
}

/// The number of leading characters of `cs` whose UTF-8 bytes fit in
/// `limit`: the last character boundary at or before byte `limit`.
pub open spec fn floor_boundary(cs: Seq<char>, limit: int) -> nat
    decreases cs.len(),
{
    if cs.len() > 0 && utf8_len(cs[0]) <= limit {
        1 + floor_boundary(cs.drop_first(), limit - utf8_len(cs[0]))
    } else {
        0
    }
}

/// The last `max` bytes of a text, trimmed, behind `...` when it was cut
/// (the cut moves back to a character boundary).
pub open spec fn tail_of(text: Seq<char>, max: nat) -> Seq<char> {
    let total = utf8_bytes(text);
    if total <= max {
        trim(text)
    } else {
        "..."@ + trim(text.skip(floor_boundary(text, total - max) as int))
    }
}

/// The decimal rendering of a signed number.
pub open spec fn signed_decimal(n: int) -> Seq<char> {
    if n < 0 {
        "-"@ + decimal((-n) as nat)
    } else {
        decimal(n as nat)
    }
}

/// Why a `cargo rustdoc` run that exited unsuccessfully was skipped.
pub open spec fn failure_reason_spec(code: Option<i32>, stderr: Seq<u8>) -> Seq<char> {
    let c: int = match code {
        Some(c) => c as int,
        None => -1,
    };
    "cargo rustdoc failed ("@ + signed_decimal(c) + "); stderr: "@ + tail_of(utf8_lossy(stderr), 4000)
}

/// Why a package whose run succeeded but left no artifact was skipped.
pub open spec fn missing_reason_spec(src: Seq<char>) -> Seq<char> {
    "rustdoc JSON not produced at "@ + src
        + "; this may be a toolchain without rustdoc JSON support"@
}

/// Why a package without a prebuilt artifact was skipped.
pub open spec fn no_prebuilt_reason(path: Seq<char>) -> Seq<char> {
    "no prebuilt artifact at "@ + path
}

/// Whether `t` has a library kind.
fn has_lib_kind(t: &Target) -> (r: bool)
    ensures
        r == is_lib_target(*t),
{
    let mut j: usize = 0;
    while j < t.kinds.len()
        invariant
            j <= t.kinds@.len(),
            forall|i: int| 0 <= i < j ==> !is_lib_kind(#[trigger] t.kinds@[i]),
        decreases t.kinds@.len() - j,
    {
        let lib = match &t.kinds[j] {
            TargetKind::Lib | TargetKind::RLib | TargetKind::DyLib | TargetKind::CDyLib
            | TargetKind::StaticLib | TargetKind::ProcMacro => true,
            _ => false,
        };
        if lib {
            return true;
        }
        j = j + 1;
    }
    false
}

/// The lib target's crate name (rustdoc output file name), if the package
/// has a library-like target at all.
pub fn lib_crate_name(pkg: &Package) -> (r: Option<String>)
    ensures
        opt_string_view(r) == lib_name_spec(*pkg),
{
    let ghost ts = pkg.targets@;
    let mut i: usize = 0;
    assert(ts.skip(0) =~= ts);
    while i < pkg.targets.len()
        invariant
            i <= ts.len(),
            ts == pkg.targets@,
            first_lib_target(ts) == match first_lib_target(ts.skip(i as int)) {
                Some(j) => Some(j + i),
                None => None,
            },
        decreases ts.len() - i,
    {
        assert(ts.skip(i as int).drop_first() =~= ts.skip(i + 1));
        assert(ts.skip(i as int)[0] == ts[i as int]);
        if has_lib_kind(&pkg.targets[i]) {
            return Some(pkg.targets[i].name.clone());
        }
        i = i + 1;
    }
    assert(ts.skip(i as int) =~= Seq::<Target>::empty());
    None
}

/// The UTF-8 length of a character.
fn char_utf8_len(c: char) -> (r: u8)
    ensures
        r == utf8_len(c),
{
    let v = c as u32;
    if v < 0x80 {
        1
    } else if v < 0x800 {
        2
    } else if v < 0x10000 {
        3
    } else {
        4
    }
}

proof fn lemma_utf8_bytes_bound(cs: Seq<char>)
    ensures
        utf8_bytes(cs) <= 4 * cs.len(),
    decreases cs.len(),
{
    if cs.len() > 0 {
        lemma_utf8_bytes_bound(cs.drop_last());
    }
}

/// The last `max` bytes of `text`, trimmed, behind `...` when it was cut.
fn tail_text(text: &str, max: usize) -> (r: String)
    ensures
        r@ == tail_of(text@, max as nat),
{
    let cs = chars_of(text);
    let mut total: u128 = 0;
    let mut k: usize = 0;
    while k < cs.len()
        invariant
            k <= cs@.len(),
            cs@ == text@,
            total == utf8_bytes(cs@.take(k as int)),
            total <= 4 * k,
        decreases cs@.len() - k,
    {
        assert(cs@.take(k + 1).drop_last() =~= cs@.take(k as int));
        total = total + char_utf8_len(cs[k]) as u128;
        k = k + 1;
    }
    assert(cs@.take(k as int) =~= cs@);
    if total <= max as u128 {
        return trim_str(text);
    }
    let limit: u128 = total - max as u128;
    let mut start: usize = 0;
    let mut used: u128 = 0;
    assert(cs@.skip(0) =~= cs@);
    while start < cs.len() && used + char_utf8_len(cs[start]) as u128 <= limit
        invariant
            start <= cs@.len(),
            cs@ == text@,
            used <= limit,
            limit <= total,
            total <= 4 * cs@.len(),
            floor_boundary(cs@, limit as int) == start + floor_boundary(
                cs@.skip(start as int),
                limit - used,
            ),
        decreases cs@.len() - start,
    {
        assert(cs@.skip(start as int).drop_first() =~= cs@.skip(start + 1));
        assert(cs@.skip(start as int)[0] == cs@[start as int]);
        used = used + char_utf8_len(cs[start]) as u128;
        start = start + 1;
    }
    proof {
        if start < cs@.len() {
            assert(cs@.skip(start as int)[0] == cs@[start as int]);
        }
    }
    let rest = string_of(&cs, start, cs.len());
    assert(rest@ =~= text@.skip(start as int));
    let trimmed = trim_str(rest.as_str());
    let mut out = to_owned("...");
    push_str(&mut out, trimmed.as_str());
    out
}

/// The last `max` bytes of a command's standard error, decoded, trimmed,
/// behind `...` when it was cut.
pub fn stderr_tail(stderr: &[u8], max: usize) -> (r: String)
    ensures
        r@ == tail_of(utf8_lossy(stderr@), max as nat),
{
    let text = lossy_text(stderr);
    tail_text(text.as_str(), max)
}

/// The decimal rendering of a signed number.
fn signed_decimal_string(n: i32) -> (r: String)
    ensures
        r@ == signed_decimal(n as int),
{
    if n < 0 {
        let mut out = to_owned("-");
        let magnitude: i64 = -(n as i64);
        let digits = decimal_string(magnitude as u64);
        push_str(&mut out, digits.as_str());
        out
    } else {
        decimal_string(n as u64)
    }
}

/// Why a `cargo rustdoc` run that exited unsuccessfully (with `code`, or
/// none when a signal ended it) was skipped.
pub fn failure_reason(code: Option<i32>, stderr: &[u8]) -> (r: String)
    ensures
        r@ == failure_reason_spec(code, stderr@),
{
    let c: i32 = match code {
        Some(c) => c,
        None => -1,
    };
    let mut out = to_owned("cargo rustdoc failed (");
    let rendered = signed_decimal_string(c);
    push_str(&mut out, rendered.as_str());
    push_str(&mut out, "); stderr: ");
    let tail = stderr_tail(stderr, 4000);
    push_str(&mut out, tail.as_str());
    out
}

/// Why a package whose run succeeded but left no artifact at `src` was
/// skipped.
pub fn missing_reason(src: &str) -> (r: String)
    ensures
        r@ == missing_reason_spec(src@),
{
    let mut out = to_owned("rustdoc JSON not produced at ");
    push_str(&mut out, src);
    push_str(&mut out, "; this may be a toolchain without rustdoc JSON support");
    out
}

/// `name@version`, the spec that selects a package.
pub fn package_spec(pkg: &Package) -> (r: String)
    ensures
        r@ == display_spec(pkg.name@, pkg.version@),
{
    let mut out = pkg.name.clone();
    push_str(&mut out, "@");
    push_str(&mut out, pkg.version.as_str());
    out
}

/// `name-version.json`.
fn file_name_of(pkg: &Package) -> (r: String)
    ensures
        r@ == artifact_file_name(*pkg),
{
    let mut out = pkg.name.clone();
    push_str(&mut out, "-");
    push_str(&mut out, pkg.version.as_str());
    push_str(&mut out, ".json");
    out
}

/// The arguments of a `cargo rustdoc` run for a package spec.
pub fn rustdoc_args(spec: &str) -> (r: Vec<String>)
    ensures
        strings_view(r@) == rustdoc_args_spec(spec@),
{
    let mut args: Vec<String> = Vec::new();
    args.push(to_owned("rustdoc"));
    args.push(to_owned("-p"));
    args.push(to_owned(spec));
    args.push(to_owned("--lib"));
    args.push(to_owned("--"));
    args.push(to_owned("-Zunstable-options"));
    args.push(to_owned("--output-format"));
    args.push(to_owned("json"));
    assert(strings_view(args@) =~= rustdoc_args_spec(spec@));
    args
}

/// The cargo version a `cargo --version` run reports: its decoded, trimmed
/// standard output when the run succeeded.
pub fn cargo_version_from(success: bool, stdout: &[u8]) -> (r: Option<String>)
    ensures
        opt_string_view(r) == if success {
            Some(trim(utf8_lossy(stdout@)))
        } else {
            None
        },
{
    if success {
        let text = lossy_text(stdout);
        Some(trim_str(text.as_str()))
    } else {
        None
    }
}

/// Generates rustdoc JSON by invoking cargo (nightly toolchain required;
/// rustdoc JSON output is an unstable rustdoc feature).
pub struct GeneratedRustdocProvider {
    manifest_path: String,
    workspace_root: String,
    target_directory: String,
    /// Versioned artifact cache dir, e.g. `<index>/cache/rustdoc`.
    artifact_dir: String,
    /// Toolchain passed to cargo (e.g. "nightly"); `None` = plain cargo.
    toolchain: Option<String>,
    /// Cargo binary resolved once at construction: explicit `--cargo` beats
    /// the environment's, which beats cargo on `$PATH` (`None`).
    cargo: Option<String>,
}

/// What to do for one package of a generation run.
pub enum PackagePlan {
    /// No library target: rustdoc JSON cannot exist.
    Unsupported { spec: String },
    /// Run `argv ++ args` in the workspace root; `command` is its display
    /// form for diagnostics.
    Generate { spec: String, lib_name: String, args: Vec<String>, command: String },
}

/// What follows a `cargo rustdoc` run.
pub enum RunOutcome {
    /// The package was recorded as skipped.
    Skipped,
    /// The artifact is to be copied from `from` to `to`, then recorded.
    CopyArtifact { from: String, to: String },
}

impl GeneratedRustdocProvider {
    pub closed spec fn manifest_path_spec(&self) -> Seq<char> {
        self.manifest_path@
    }

    pub closed spec fn workspace_root_spec(&self) -> Seq<char> {
        self.workspace_root@
    }

    pub closed spec fn target_directory_spec(&self) -> Seq<char> {
        self.target_directory@
    }

    pub closed spec fn artifact_dir_spec(&self) -> Seq<char> {
        self.artifact_dir@
    }

    pub closed spec fn toolchain_spec(&self) -> Option<Seq<char>> {
        opt_string_view(self.toolchain)
    }

    pub closed spec fn cargo_spec(&self) -> Option<Seq<char>> {
        opt_string_view(self.cargo)
    }

    /// A provider for `universe`, with the environment's cargo setting
    /// `env_cargo` supplied by the caller.
    pub fn new_with_env(
        universe: &CargoUniverse,
        artifact_dir: String,
        toolchain: Option<String>,
        cargo: Option<&str>,
        env_cargo: Option<String>,
    ) -> (r: Self)
        ensures
            r.manifest_path_spec() == join(universe.workspace_root_spec(), "Cargo.toml"@),
            r.workspace_root_spec() == universe.workspace_root_spec(),
            r.target_directory_spec() == universe.target_directory_spec(),
            r.artifact_dir_spec() == artifact_dir@,
            r.toolchain_spec() == opt_string_view(toolchain),
            r.cargo_spec().is_some() == cargo_choice_spec(
                opt_view(cargo),
                opt_string_view(env_cargo),
            ).is_some(),
            r.cargo_spec() matches Some(c) ==> crate::paths::is_absolute(c) || c
                == cargo_choice_spec(opt_view(cargo), opt_string_view(env_cargo))->0,
    {
        let root = universe.workspace_root();
        GeneratedRustdocProvider {
            manifest_path: join_path(root, "Cargo.toml"),
            workspace_root: to_owned(root),
            target_directory: to_owned(universe.target_directory()),
            artifact_dir,
            toolchain,
            cargo: resolve_cargo(cargo, env_cargo),
        }
    }

    /// The workspace manifest.
    pub fn manifest_path(&self) -> (r: &str)
        ensures
            r@ == self.manifest_path_spec(),
    {
        self.manifest_path.as_str()
    }

    /// The directory cargo runs in.
    pub fn workspace_root(&self) -> (r: &str)
        ensures
            r@ == self.workspace_root_spec(),
    {
        self.workspace_root.as_str()
    }

    /// The artifact directory.
    pub fn artifact_dir(&self) -> (r: &str)
        ensures
            r@ == self.artifact_dir_spec(),
    {
        self.artifact_dir.as_str()
    }

    /// The resolved cargo binary, when one was configured.
    pub fn cargo(&self) -> (r: Option<&str>)
        ensures
            opt_view(r) == self.cargo_spec(),
    {
        match &self.cargo {
            Some(c) => Some(c.as_str()),
            None => None,
        }
    }

    /// The cargo invocation prefix.
    pub fn cargo_argv(&self) -> (r: Vec<String>)
        ensures
            strings_view(r@) == argv_spec(self.cargo_spec(), self.toolchain_spec()),
    {
        let mut argv: Vec<String> = Vec::new();
        match &self.cargo {
            Some(cargo) => {
                argv.push(cargo.clone());
            },
            None => {
                argv.push(to_owned("cargo"));
                match &self.toolchain {
                    Some(t) => {
                        let mut plus = to_owned("+");
                        push_str(&mut plus, t.as_str());
                        argv.push(plus);
                    },
                    None => {},
                }
            },
        }
        assert(strings_view(argv@) =~= argv_spec(self.cargo_spec(), self.toolchain_spec()));
        argv
    }

    /// The display form of the `cargo rustdoc` command for a package spec.
    pub fn display_command(&self, spec: &str) -> (r: String)
        ensures
            r@ == join_text(argv_spec(self.cargo_spec(), self.toolchain_spec()), " "@)
                + " rustdoc -p "@ + spec@
                + " --lib -- -Zunstable-options --output-format json"@,
    {
        let argv = self.cargo_argv();
        let mut out = join_strings(&argv, " ");
        assert(argv@.map_values(|p: String| p@) =~= strings_view(argv@));
        push_str(&mut out, " rustdoc -p ");
        push_str(&mut out, spec);
        push_str(&mut out, " --lib -- -Zunstable-options --output-format json");
        out
    }

    /// The plan for one package: unsupported without a library target,
    /// else the `cargo rustdoc` run for `name@version`.
    pub fn plan(&self, pkg: &Package) -> (r: PackagePlan)
        ensures
            match r {
                PackagePlan::Unsupported { spec } => {
                    &&& lib_name_spec(*pkg) is None
                    &&& spec@ == display_spec(pkg.name@, pkg.version@)
                },
                PackagePlan::Generate { spec, lib_name, args, command } => {
                    &&& lib_name_spec(*pkg) == Some(lib_name@)
                    &&& spec@ == display_spec(pkg.name@, pkg.version@)
                    &&& strings_view(args@) == rustdoc_args_spec(spec@)
                    &&& command@ == join_text(
                        argv_spec(self.cargo_spec(), self.toolchain_spec()),
                        " "@,
                    ) + " rustdoc -p "@ + spec@
                        + " --lib -- -Zunstable-options --output-format json"@
                },
            },
    {
        let spec = package_spec(pkg);
        match lib_crate_name(pkg) {
            None => PackagePlan::Unsupported { spec },
            Some(lib_name) => {
                let args = rustdoc_args(spec.as_str());
                let command = self.display_command(spec.as_str());
                PackagePlan::Generate { spec, lib_name, args, command }
            },
        }
    }

    /// Where `cargo rustdoc` leaves the artifact of the library `lib_name`.
    pub fn artifact_source(&self, lib_name: &str) -> (r: String)
        ensures
            r@ == join(join(self.target_directory_spec(), "doc"@), lib_name@ + ".json"@),
    {
        let doc = join_path(self.target_directory.as_str(), "doc");
        let mut file = to_owned(lib_name);
        push_str(&mut file, ".json");
        join_path(doc.as_str(), file.as_str())
    }

    /// The versioned copy of a package's artifact.
    pub fn artifact_dest(&self, pkg: &Package) -> (r: String)
        ensures
            r@ == join(self.artifact_dir_spec(), artifact_file_name(*pkg)),
    {
        let file = file_name_of(pkg);
        join_path(self.artifact_dir.as_str(), file.as_str())
    }

    /// Decides what follows the `cargo rustdoc` run of a package: an
    /// unsuccessful run, or one that left no artifact, skips the package
    /// (recorded in `out`); otherwise the artifact is to be copied.
    pub fn after_run(
        &self,
        out: &mut GeneratedRustdocs,
        pkg: &Package,
        lib_name: &str,
        success: bool,
        code: Option<i32>,
        stderr: &[u8],
    ) -> (r: RunOutcome)
        ensures
            final(out).artifacts == old(out).artifacts,
            final(out).unsupported == old(out).unsupported,
            !success ==> r is Skipped && pairs_view(final(out).skipped@) == pairs_view(
                old(out).skipped@,
            ).push(
                (display_spec(pkg.name@, pkg.version@), failure_reason_spec(code, stderr@)),
            ),
            success ==> match r {
                RunOutcome::Skipped => pairs_view(final(out).skipped@) == pairs_view(
                    old(out).skipped@,
                ).push(
                    (
                        display_spec(pkg.name@, pkg.version@),
                        missing_reason_spec(
                            join(join(self.target_directory_spec(), "doc"@), lib_name@ + ".json"@),
                        ),
                    ),
                ),
                RunOutcome::CopyArtifact { from, to } => {
                    &&& from@ == join(join(self.target_directory_spec(), "doc"@), lib_name@ + ".json"@)
                    &&& to@ == join(self.artifact_dir_spec(), artifact_file_name(*pkg))
                    &&& pairs_view(final(out).skipped@) == pairs_view(old(out).skipped@)
                },
            },
    {
        let spec = package_spec(pkg);
        if !success {
            let reason = failure_reason(code, stderr);
            let ghost before = pairs_view(out.skipped@);
            let ghost entry = (spec@, reason@);
            out.skipped.push((spec, reason));
            assert(pairs_view(out.skipped@) =~= before.push(entry));
            return RunOutcome::Skipped;
        }
        let src = self.artifact_source(lib_name);
        if !is_file(src.as_str()) {
            let reason = missing_reason(src.as_str());
            let ghost before = pairs_view(out.skipped@);
            let ghost entry = (spec@, reason@);
            out.skipped.push((spec, reason));
            assert(pairs_view(out.skipped@) =~= before.push(entry));
            return RunOutcome::Skipped;
        }
        let dest = self.artifact_dest(pkg);
        RunOutcome::CopyArtifact { from: src, to: dest }
    }
}

/// Records a package's generated artifact at `path`.
pub fn record_artifact(
    out: &mut GeneratedRustdocs,
    universe: &CargoUniverse,
    pkg: &Package,
    path: String,
    cargo_version: Option<String>,
)
    ensures
        artifacts_view(final(out).artifacts@) == artifacts_view(old(out).artifacts@).push(
            artifact_of(*pkg, path@, opt_string_view(cargo_version)),
        ),
        final(out).skipped == old(out).skipped,
        final(out).unsupported == old(out).unsupported,
{
    let identity = universe.identity(pkg);
    let artifact = RustdocArtifact { package: identity, path, cargo_version };
    let ghost before = artifacts_view(out.artifacts@);
    let ghost entry = artifact_view(artifact);
    out.artifacts.push(artifact);
    assert(artifacts_view(out.artifacts@) =~= before.push(entry));
}

/// Records a package that cannot have rustdoc JSON.
pub fn record_unsupported(out: &mut GeneratedRustdocs, spec: String)
    ensures
        final(out).artifacts == old(out).artifacts,
        final(out).skipped == old(out).skipped,
        strings_view(final(out).unsupported@) == strings_view(old(out).unsupported@).push(spec@),
{
    let ghost before = strings_view(out.unsupported@);
    let ghost entry = spec@;
    out.unsupported.push(spec);
    assert(strings_view(out.unsupported@) =~= before.push(entry));
}

/// The outcome of looking for prebuilt artifacts of `pkgs` in `dir`, when
/// `found[i]` tells whether the artifact file of `pkgs[i]` exists: the
/// found ones as artifacts (in order), the others as skipped.
pub open spec fn prebuilt_outcome(dir: Seq<char>, pkgs: Seq<Package>, found: Seq<bool>) -> (
    Seq<(Seq<char>, Seq<char>, Seq<char>, Option<Seq<char>>, Seq<char>, Seq<char>, Option<Seq<char>>)>,
    Seq<(Seq<char>, Seq<char>)>,
)
    decreases pkgs.len(),
{
    if pkgs.len() == 0 || found.len() == 0 {
        (Seq::empty(), Seq::empty())
    } else {
        let (arts, skips) = prebuilt_outcome(dir, pkgs.drop_last(), found.drop_last());
        let pkg = pkgs.last();
        let path = join(dir, artifact_file_name(pkg));
        if found.last() {
            (arts.push(artifact_of(pkg, path, None)), skips)
        } else {
            (arts, skips.push((display_spec(pkg.name@, pkg.version@), no_prebuilt_reason(path))))
        }
    }
}

/// The packages behind references.
pub open spec fn packages_of(v: Seq<&Package>) -> Seq<Package> {
    v.map_values(|p: &Package| *p)
}

/// Reads pre-existing rustdoc JSON artifacts named `<name>-<version>.json`
/// from a directory, for toolchains that cannot generate them here.
pub struct PrebuiltRustdocProvider {
    pub dir: String,
}

impl PrebuiltRustdocProvider {
    /// The prebuilt artifact of every package that has one; the others are
    /// skipped. Which files exist is up to the disk, so the result is
    /// stated for whatever was found.
    pub fn generate(&self, universe: &CargoUniverse, packages: &[&Package]) -> (r: Result<
        GeneratedRustdocs,
        crate::error::IndexError,
    >)
        ensures
            match r {
                Ok(out) => {
                    &&& out.unsupported@.len() == 0
                    &&& exists|found: Seq<bool>|
                        found.len() == packages@.len() && #[trigger] prebuilt_outcome(
                            self.dir@,
                            packages_of(packages@),
                            found,
                        ) == (artifacts_view(out.artifacts@), pairs_view(out.skipped@))
                },
                Err(_) => false,
            },
    {
        let ghost pkgs = packages_of(packages@);
        let mut out = GeneratedRustdocs::default();
        let ghost mut found: Seq<bool> = Seq::empty();
        let mut i: usize = 0;
        assert(artifacts_view(out.artifacts@) =~= Seq::empty());
        assert(pairs_view(out.skipped@) =~= Seq::empty());
        while i < packages.len()
            invariant
                i <= packages@.len(),
                pkgs == packages_of(packages@),
                found.len() == i,
                out.unsupported@.len() == 0,
                prebuilt_outcome(self.dir@, pkgs.take(i as int), found) == (
                    artifacts_view(out.artifacts@),
                    pairs_view(out.skipped@),
                ),
            decreases packages@.len() - i,
        {
            let pkg: &Package = packages[i];
            assert(pkgs.take(i + 1).drop_last() =~= pkgs.take(i as int));
            assert(pkgs.take(i + 1).last() == *pkg);
            let file = file_name_of(pkg);
            let path = join_path(self.dir.as_str(), file.as_str());
            let ghost prev = found;
            if is_file(path.as_str()) {
                proof {
                    found = found.push(true);
                    assert(found.drop_last() =~= prev);
                }
                record_artifact(&mut out, universe, pkg, path, None);
            } else {
                let spec = package_spec(pkg);
                let mut reason = to_owned("no prebuilt artifact at ");
                push_str(&mut reason, path.as_str());
                proof {
                    found = found.push(false);
                    assert(found.drop_last() =~= prev);
                }
                let ghost before = pairs_view(out.skipped@);
                let ghost entry = (spec@, reason@);
                out.skipped.push((spec, reason));
                assert(pairs_view(out.skipped@) =~= before.push(entry));
            }
            i = i + 1;
        }
        assert(pkgs.take(i as int) =~= pkgs);
        assert(prebuilt_outcome(self.dir@, pkgs, found) == (
            artifacts_view(out.artifacts@),
            pairs_view(out.skipped@),
        ));
        Ok(out)
    }
}

/// A prebuilt lookup accounts for every package exactly once: as an
/// artifact when its file was found, as skipped otherwise.
pub proof fn law_prebuilt_accounts_for_every_package(
    dir: Seq<char>,
    pkgs: Seq<Package>,
    found: Seq<bool>,
)
    requires
        found.len() == pkgs.len(),
    ensures
        prebuilt_outcome(dir, pkgs, found).0.len() + prebuilt_outcome(dir, pkgs, found).1.len()
            == pkgs.len(),
        prebuilt_outcome(dir, pkgs, found).0.len() == found.filter(|b: bool| b).len(),
    decreases pkgs.len(),
{
    reveal(Seq::filter);
    if pkgs.len() > 0 {
        law_prebuilt_accounts_for_every_package(dir, pkgs.drop_last(), found.drop_last());
        assert(found.drop_last() =~= found.subrange(0, found.len() - 1));
    }
}

} // verus!
