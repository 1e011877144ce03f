//! Finding and talking to the `the-search-thing-sidecar` binary.
//!
//! The lookup asks the host whether candidate paths exist, one at a time, and
//! decides what to try next: the path named by [`SIDECAR_BIN_ENV`] when it is
//! set, otherwise `target/debug` and then `target/release` under the
//! repository root. Paths are handled as UTF-8 text.

use vstd::prelude::*;

verus! {

/// Environment variable that names the sidecar binary explicitly.
pub const SIDECAR_BIN_ENV: &'static str = "THE_SEARCH_THING_SIDECAR";

/// What `std::path::Path::parent` gives for the path `p`, as text, under the
/// path rules of the platform the crate is built for (Windows and Unix differ).
pub uninterp spec fn parent_path(p: Seq<char>) -> Option<Seq<char>>;

/// What `std::path::Path::join` gives for `base` and `part`, as text, under the
/// path rules of the platform the crate is built for (Windows and Unix differ).
pub uninterp spec fn joined_path(base: Seq<char>, part: Seq<char>) -> Seq<char>;

/// Calls `std::path::Path::parent` on the path `p`.
///
/// Claims that the result is the named [`parent_path`] of `p`, and, as the
/// documentation of `parent` says, that the empty path has no parent.
#[verifier::external_body]
fn path_parent(p: &str) -> (res: Option<&str>)
    ensures
        match res {
            Some(q) => parent_path(p@) == Some(q@),
            None => parent_path(p@) is None,
        },
        p@.len() == 0 ==> res is None,
{
    std::path::Path::new(p).parent().and_then(std::path::Path::to_str)
}

/// Calls `std::path::Path::join` on `base` and `part`.
///
/// Claims only that the result is the named [`joined_path`] of the two; the
/// separator rules of `join` are not stated.
#[verifier::external_body]
fn path_join(base: &str, part: &str) -> (res: String)
    ensures
        res@ == joined_path(base@, part@),
{
    std::path::Path::new(base).join(part).to_string_lossy().into_owned()
}

/// File name of the sidecar binary on the target platform.
pub open spec fn sidecar_file_name(windows: bool) -> Seq<char> {
    if windows {
        "the-search-thing-sidecar.exe"@
    } else {
        "the-search-thing-sidecar"@
    }
}

/// File name of the sidecar binary: with `.exe` on Windows, bare elsewhere.
pub fn sidecar_filename(windows: bool) -> (name: &'static str)
    ensures
        name@ == sidecar_file_name(windows),
        windows ==> name@ == "the-search-thing-sidecar.exe"@,
        !windows ==> name@ == "the-search-thing-sidecar"@,
{
    if windows {
        "the-search-thing-sidecar.exe"
    } else {
        "the-search-thing-sidecar"
    }
}

/// The repository root for a sidecar at `p`: three directory levels up
/// (`<root>/target/<profile>/<bin>`), or `.` when the path is not that deep.
pub open spec fn repo_root_of(p: Seq<char>) -> Seq<char> {
    match parent_path(p) {
        Some(a) => match parent_path(a) {
            Some(b) => match parent_path(b) {
                Some(c) => c,
                None => "."@,
            },
            None => "."@,
        },
        None => "."@,
    }
}

/// The given ancestor directory, or `.` when there is none.
pub fn root_or_current_dir(ancestor: Option<&str>) -> (root: String)
    ensures
        root@ == match ancestor {
            Some(a) => a@,
            None => "."@,
        },
{
    match ancestor {
        Some(a) => String::from_str(a),
        None => String::from_str("."),
    }
}

/// Working directory for a sidecar at `sidecar_path`: its great-grandparent
/// directory, or `.` when it has none.
pub fn repo_root_for_sidecar(sidecar_path: &str) -> (root: String)
    ensures
        root@ == repo_root_of(sidecar_path@),
        parent_path(sidecar_path@) is None ==> root@ == "."@,
        parent_path(sidecar_path@) matches Some(a) ==> (parent_path(a) is None ==> root@ == "."@),
        parent_path(sidecar_path@) matches Some(a) ==> (parent_path(a) matches Some(b) ==> (
        parent_path(b) is None ==> root@ == "."@)),
        parent_path(sidecar_path@) matches Some(a) ==> (parent_path(a) matches Some(b) ==> (
        parent_path(b) matches Some(c) ==> root@ == c)),
{
    let ancestor = match path_parent(sidecar_path) {
        Some(a) => match path_parent(a) {
            Some(b) => path_parent(b),
            None => None,
        },
        None => None,
    };
    root_or_current_dir(ancestor)
}

/// Name of the build profile searched at step `i` of the lookup.
pub open spec fn profile_name(i: int) -> Seq<char> {
    if i == 0 {
        "debug"@
    } else {
        "release"@
    }
}

/// Build profiles searched in order; a lookup tries this many candidates under the root.
pub const SIDECAR_PROFILE_COUNT: usize = 2;

/// Name of the build profile searched at step `i`: `debug`, then `release`.
pub fn build_profile(i: usize) -> (name: &'static str)
    requires
        i < SIDECAR_PROFILE_COUNT,
    ensures
        name@ == profile_name(i as int),
        i == 0 ==> name@ == "debug"@,
        i == 1 ==> name@ == "release"@,
{
    if i == 0 {
        "debug"
    } else {
        "release"
    }
}

/// Where the sidecar built with profile `i` would be: `<root>/target/<profile>/<bin>`.
pub open spec fn candidate_path(root: Seq<char>, bin: Seq<char>, i: int) -> Seq<char> {
    joined_path(joined_path(joined_path(root, "target"@), profile_name(i)), bin)
}

/// The two build outputs a lookup tries are `<root>/target/debug/<bin>` and
/// then `<root>/target/release/<bin>`, under two different profile names.
pub proof fn lemma_candidate_paths(root: Seq<char>, bin: Seq<char>)
    ensures
        candidate_path(root, bin, 0) == joined_path(
            joined_path(joined_path(root, "target"@), "debug"@),
            bin,
        ),
        candidate_path(root, bin, 1) == joined_path(
            joined_path(joined_path(root, "target"@), "release"@),
            bin,
        ),
        profile_name(0) != profile_name(1),
{
    reveal_strlit("debug");
    reveal_strlit("release");
    assert("debug"@.len() != "release"@.len());
}

/// The working directory of a sidecar is its great-grandparent directory when
/// it has one, and `.` otherwise.
pub proof fn lemma_repo_root_rule(p: Seq<char>)
    ensures
        parent_path(p) is None ==> repo_root_of(p) == "."@,
        parent_path(p) matches Some(a) ==> (parent_path(a) is None ==> repo_root_of(p) == "."@),
        parent_path(p) matches Some(a) ==> (parent_path(a) matches Some(b) ==> (parent_path(b) is None
            ==> repo_root_of(p) == "."@)),
        parent_path(p) matches Some(a) ==> (parent_path(a) matches Some(b) ==> (
        parent_path(b) matches Some(c) ==> repo_root_of(p) == c)),
{
}

/// Message when the environment names a path that does not exist.
pub open spec fn env_path_missing_message(p: Seq<char>) -> Seq<char> {
    "THE_SEARCH_THING_SIDECAR is set but path does not exist: "@ + p
}

/// Message when the crate directory has no parent to serve as repository root.
pub open spec fn no_repo_root_message() -> Seq<char> {
    "gpui crate manifest has no parent (expected repo root)"@
}

/// Message when no build output holds the sidecar.
pub open spec fn sidecar_not_found_message(root: Seq<char>, bin: Seq<char>) -> Seq<char> {
    "sidecar binary not found under "@ + root + "target/{debug,release}/"@ + bin
        + ". Build it from the repo root (`cargo build -p the_search_thing --bin the-search-thing-sidecar`) or set THE_SEARCH_THING_SIDECAR."@
}

/// A path whose existence the lookup waits to learn.
#[derive(Debug, Clone, PartialEq, Eq)]
pub enum SidecarProbe {
    /// The path named by [`SIDECAR_BIN_ENV`].
    EnvOverride { path: String },
    /// The build output of profile `profile` under `repo_root`.
    BuildOutput { repo_root: String, bin_name: String, profile: usize, path: String },
}

/// Where a lookup stands after a step.
#[derive(Debug, Clone, PartialEq, Eq)]
pub enum LookupStep {
    /// The host must say whether the probe's path exists.
    Check(SidecarProbe),
    /// The sidecar is at this path.
    Found(String),
    /// The lookup gave up, with this message.
    Failed(String),
}

/// A probe, without the path text it carries.
pub ghost enum ProbeModel {
    EnvOverride(Seq<char>),
    BuildOutput(Seq<char>, Seq<char>, int),
}

/// A lookup step, with its probe as a [`ProbeModel`].
pub ghost enum StepModel {
    Check(ProbeModel),
    Found(Seq<char>),
    Failed(Seq<char>),
}

impl View for SidecarProbe {
    type V = ProbeModel;

    open spec fn view(&self) -> ProbeModel {
        match self {
            SidecarProbe::EnvOverride { path } => ProbeModel::EnvOverride(path@),
            SidecarProbe::BuildOutput { repo_root, bin_name, profile, path } => ProbeModel::BuildOutput(
                repo_root@,
                bin_name@,
                *profile as int,
            ),
        }
    }
}

impl View for LookupStep {
    type V = StepModel;

    open spec fn view(&self) -> StepModel {
        match self {
            LookupStep::Check(p) => StepModel::Check(p@),
            LookupStep::Found(p) => StepModel::Found(p@),
            LookupStep::Failed(m) => StepModel::Failed(m@),
        }
    }
}

/// The path a probe asks about.
pub open spec fn probe_path(p: ProbeModel) -> Seq<char> {
    match p {
        ProbeModel::EnvOverride(path) => path,
        ProbeModel::BuildOutput(root, bin, i) => candidate_path(root, bin, i),
    }
}

/// The first step of a lookup, given the value of [`SIDECAR_BIN_ENV`] (if it
/// is set and valid Unicode), the directory of the front-end crate, and the
/// target platform.
pub open spec fn lookup_start(env: Option<Seq<char>>, manifest_dir: Seq<char>, windows: bool) -> StepModel {
    match env {
        Some(p) => StepModel::Check(ProbeModel::EnvOverride(p)),
        None => match parent_path(manifest_dir) {
            Some(root) => StepModel::Check(
                ProbeModel::BuildOutput(root, sidecar_file_name(windows), 0),
            ),
            None => StepModel::Failed(no_repo_root_message()),
        },
    }
}

/// The step after learning whether the probed path exists.
pub open spec fn lookup_advance(p: ProbeModel, found: bool) -> StepModel {
    if found {
        StepModel::Found(probe_path(p))
    } else {
        match p {
            ProbeModel::EnvOverride(path) => StepModel::Failed(env_path_missing_message(path)),
            ProbeModel::BuildOutput(root, bin, i) => if i + 1 < SIDECAR_PROFILE_COUNT {
                StepModel::Check(ProbeModel::BuildOutput(root, bin, i + 1))
            } else {
                StepModel::Failed(sidecar_not_found_message(root, bin))
            },
        }
    }
}

/// Where the sidecar is, as the lookup decides it, when `path_exists` says which
/// paths exist: the environment override if set (and then only it), else the
/// first existing build output in profile order.
pub open spec fn resolve_sidecar(
    env: Option<Seq<char>>,
    manifest_dir: Seq<char>,
    windows: bool,
    path_exists: spec_fn(Seq<char>) -> bool,
) -> Result<Seq<char>, Seq<char>> {
    match env {
        Some(p) => if path_exists(p) {
            Ok(p)
        } else {
            Err(env_path_missing_message(p))
        },
        None => match parent_path(manifest_dir) {
            None => Err(no_repo_root_message()),
            Some(root) => {
                let bin = sidecar_file_name(windows);
                if path_exists(candidate_path(root, bin, 0)) {
                    Ok(candidate_path(root, bin, 0))
                } else if path_exists(candidate_path(root, bin, 1)) {
                    Ok(candidate_path(root, bin, 1))
                } else {
                    Err(sidecar_not_found_message(root, bin))
                }
            },
        },
    }
}

/// Runs a lookup from `step` for at most `fuel` probes, answering each from `path_exists`.
pub open spec fn run_lookup(step: StepModel, path_exists: spec_fn(Seq<char>) -> bool, fuel: nat) -> Option<
    Result<Seq<char>, Seq<char>>,
>
    decreases fuel,
{
    match step {
        StepModel::Found(p) => Some(Ok(p)),
        StepModel::Failed(m) => Some(Err(m)),
        StepModel::Check(p) => if fuel == 0 {
            None
        } else {
            run_lookup(lookup_advance(p, path_exists(probe_path(p))), path_exists, (fuel - 1) as nat)
        },
    }
}

/// A lookup ends within three probes, whatever the host answers, and ends
/// where [`resolve_sidecar`] says.
pub proof fn lemma_lookup_resolves(
    env: Option<Seq<char>>,
    manifest_dir: Seq<char>,
    windows: bool,
    path_exists: spec_fn(Seq<char>) -> bool,
)
    ensures
        run_lookup(lookup_start(env, manifest_dir, windows), path_exists, 3) == Some(
            resolve_sidecar(env, manifest_dir, windows, path_exists),
        ),
{
    reveal_with_fuel(run_lookup, 4);
}

impl SidecarProbe {
    /// The stored path is the one the probe asks about, and a build-output
    /// probe names one of the searched profiles.
    pub open spec fn wf(&self) -> bool {
        match self {
            SidecarProbe::EnvOverride { .. } => true,
            SidecarProbe::BuildOutput { repo_root, bin_name, profile, path } => {
                &&& *profile < SIDECAR_PROFILE_COUNT
                &&& path@ == candidate_path(repo_root@, bin_name@, *profile as int)
            },
        }
    }

    /// The path whose existence the host must check.
    pub fn path(&self) -> (p: &str)
        requires
            self.wf(),
        ensures
            p@ == probe_path(self@),
            self matches SidecarProbe::EnvOverride { path } ==> p@ == path@,
            self matches SidecarProbe::BuildOutput { path, .. } ==> p@ == path@,
    {
        match self {
            SidecarProbe::EnvOverride { path } => path.as_str(),
            SidecarProbe::BuildOutput { path, .. } => path.as_str(),
        }
    }

    /// The next step, once the host has said whether [`Self::path`] exists.
    pub fn advance(self, found: bool) -> (next: LookupStep)
        requires
            self.wf(),
        ensures
            next@ == lookup_advance(self@, found),
            next matches LookupStep::Check(p) ==> p.wf(),
            self matches SidecarProbe::EnvOverride { path } ==> (found ==> (next matches LookupStep::Found(
                q,
            ) && q@ == path@)),
            self matches SidecarProbe::EnvOverride { path } ==> (!found ==> (
            next matches LookupStep::Failed(m) && m@
                == "THE_SEARCH_THING_SIDECAR is set but path does not exist: "@ + path@)),
            self matches SidecarProbe::BuildOutput { path, .. } ==> (found ==> (
            next matches LookupStep::Found(q) && q@ == path@)),
            self matches SidecarProbe::BuildOutput { repo_root, bin_name, profile, .. } ==> (!found
                && profile == 0 ==> (next matches LookupStep::Check(
                SidecarProbe::BuildOutput { repo_root: r, bin_name: b, profile: i, path: q },
            ) && r@ == repo_root@ && b@ == bin_name@ && i == 1 && q@ == joined_path(
                joined_path(joined_path(repo_root@, "target"@), "release"@),
                bin_name@,
            ))),
            self matches SidecarProbe::BuildOutput { repo_root, bin_name, profile, .. } ==> (!found
                && profile == 1 ==> (next matches LookupStep::Failed(m) && m@ == "sidecar binary not found under "@ + repo_root@ + "target/{debug,release}/"@ + bin_name@ + ". Build it from the repo root (`cargo build -p the_search_thing --bin the-search-thing-sidecar`) or set THE_SEARCH_THING_SIDECAR."@)),
    {
        match self {
            SidecarProbe::EnvOverride { path } => {
                if found {
                    LookupStep::Found(path)
                } else {
                    LookupStep::Failed(env_path_missing(path.as_str()))
                }
            },
            SidecarProbe::BuildOutput { repo_root, bin_name, profile, path } => {
                if found {
                    LookupStep::Found(path)
                } else if profile + 1 < SIDECAR_PROFILE_COUNT {
                    let next = profile + 1;
                    let candidate = build_output_path(repo_root.as_str(), bin_name.as_str(), next);
                    LookupStep::Check(
                        SidecarProbe::BuildOutput { repo_root, bin_name, profile: next, path: candidate },
                    )
                } else {
                    LookupStep::Failed(sidecar_not_found(repo_root.as_str(), bin_name.as_str()))
                }
            },
        }
    }
}

/// `<root>/target/<profile>/<bin>` for profile `i`.
fn build_output_path(root: &str, bin: &str, i: usize) -> (p: String)
    requires
        i < SIDECAR_PROFILE_COUNT,
    ensures
        p@ == candidate_path(root@, bin@, i as int),
        i == 0 ==> p@ == joined_path(joined_path(joined_path(root@, "target"@), "debug"@), bin@),
        i == 1 ==> p@ == joined_path(joined_path(joined_path(root@, "target"@), "release"@), bin@),
{
    let target = path_join(root, "target");
    let profile_dir = path_join(target.as_str(), build_profile(i));
    path_join(profile_dir.as_str(), bin)
}

fn env_path_missing(p: &str) -> (m: String)
    ensures
        m@ == env_path_missing_message(p@),
{
    let mut m = String::from_str("THE_SEARCH_THING_SIDECAR is set but path does not exist: ");
    m.append(p);
    m
}

fn sidecar_not_found(root: &str, bin: &str) -> (m: String)
    ensures
        m@ == sidecar_not_found_message(root@, bin@),
{
    let mut m = String::from_str("sidecar binary not found under ");
    m.append(root);
    m.append("target/{debug,release}/");
    m.append(bin);
    m.append(
        ". Build it from the repo root (`cargo build -p the_search_thing --bin the-search-thing-sidecar`) or set THE_SEARCH_THING_SIDECAR.",
    );
    m
}

/// Starts a lookup for the sidecar binary.
///
/// `env_value` is the value of [`SIDECAR_BIN_ENV`] when it is set,
/// `manifest_dir` the directory of the front-end crate, whose parent is the
/// repository root, and `windows` whether the target is Windows.
pub fn begin_sidecar_lookup(env_value: Option<String>, manifest_dir: &str, windows: bool) -> (step:
    LookupStep)
    ensures
        step@ == lookup_start(
            match env_value {
                Some(v) => Some(v@),
                None => None,
            },
            manifest_dir@,
            windows,
        ),
        step matches LookupStep::Check(p) ==> p.wf(),
        env_value matches Some(v) ==> (step matches LookupStep::Check(
            SidecarProbe::EnvOverride { path },
        ) && path@ == v@),
        env_value is None && parent_path(manifest_dir@) is None ==> (step matches LookupStep::Failed(
            m,
        ) && m@ == "gpui crate manifest has no parent (expected repo root)"@),
        env_value is None ==> (parent_path(manifest_dir@) matches Some(root) ==> (
        step matches LookupStep::Check(
            SidecarProbe::BuildOutput { repo_root, bin_name, profile, path },
        ) && repo_root@ == root && profile == 0 && bin_name@ == (if windows {
            "the-search-thing-sidecar.exe"@
        } else {
            "the-search-thing-sidecar"@
        }) && path@ == joined_path(
            joined_path(joined_path(root, "target"@), "debug"@),
            bin_name@,
        ))),
{
    match env_value {
        Some(path) => LookupStep::Check(SidecarProbe::EnvOverride { path }),
        None => match path_parent(manifest_dir) {
            Some(root) => {
                let bin_name = String::from_str(sidecar_filename(windows));
                let path = build_output_path(root, bin_name.as_str(), 0);
                LookupStep::Check(
                    SidecarProbe::BuildOutput {
                        repo_root: String::from_str(root),
                        bin_name,
                        profile: 0,
                        path,
                    },
                )
            },
            None => LookupStep::Failed(String::from_str("gpui crate manifest has no parent (expected repo root)")),
        },
    }
}

/// What a finished sidecar process means for the search: nothing when it
/// exited successfully, otherwise the message naming its exit status.
pub fn sidecar_exit_outcome(success: bool, status: &str) -> (res: Result<(), String>)
    ensures
        success <==> res is Ok,
        res matches Err(m) ==> m@ == "sidecar exited with "@ + status@ + "; stderr logged above"@,
{
    if success {
        Ok(())
    } else {
        let mut m = String::from_str("sidecar exited with ");
        m.append(status);
        m.append("; stderr logged above");
        Err(m)
    }
}

/// What the front end reads of a sidecar reply.
#[derive(Debug, Clone, PartialEq, Eq)]
pub enum SidecarReply<R> {
    /// The rows of a search.
    SearchQueryResult(Vec<R>),
    /// The sidecar reported an error.
    Error { message: String },
    /// Any other reply, by its debug description.
    Other { description: String },
}

/// The outcome of a search from the sidecar's reply: the rows, the sidecar's
/// own error message, or a message naming an unexpected reply.
pub fn search_outcome<R>(reply: SidecarReply<R>) -> (res: Result<Vec<R>, String>)
    ensures
        match reply {
            SidecarReply::SearchQueryResult(rows) => res matches Ok(r) && r@ == rows@,
            SidecarReply::Error { message } => res matches Err(m) && m@ == message@,
            SidecarReply::Other { description } => res matches Err(m) && m@
                == "unexpected native IPC response: "@ + description@,
        },
{
    match reply {
        SidecarReply::SearchQueryResult(rows) => Ok(rows),
        SidecarReply::Error { message } => Err(message),
        SidecarReply::Other { description } => {
            let mut m = String::from_str("unexpected native IPC response: ");
            m.append(description.as_str());
            Err(m)
        },
    }
}

} // verus!
