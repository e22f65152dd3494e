use vstd::prelude::*;
use vstd::string::*;

use crate::text::{join_path, join_spec, same_text};

verus! {

/// The parameters specific to the Fuchsia target that are passed through the
/// path derivations. For the moment only `release_os` and `device_name` can
/// be chosen; the CPU is always x64.
#[derive(Debug)]
pub struct TargetOptions<'a> {
    pub release_os: bool,
    pub target_cpu: &'a str,
    pub target_cpu_linker: &'a str,
    pub device_name: Option<&'a str>,
}

impl<'a> TargetOptions<'a> {
    /// Constructs the options for an x64 target.
    pub fn new(release_os: bool, device_name: Option<&'a str>) -> (r: TargetOptions<'a>)
        ensures
            r.release_os == release_os,
            r.target_cpu@ == "x64"@,
            r.target_cpu_linker@ == "x86_64"@,
            r.device_name == device_name,
    {
        TargetOptions {
            release_os: release_os,
            target_cpu: "x64",
            target_cpu_linker: "x86_64",
            device_name: device_name,
        }
    }
}

/// The operating system the tools run on; it selects the prebuilt toolchain.
#[derive(Clone, Copy, Debug, PartialEq, Eq, Structural)]
pub enum HostPlatform {
    Mac,
    Linux,
}

/// Name of the prebuilt toolchain directory for a host.
pub open spec fn platform_dir_spec(host: HostPlatform) -> Seq<char> {
    match host {
        HostPlatform::Mac => "mac-x64"@,
        HostPlatform::Linux => "linux-x64"@,
    }
}

pub fn platform_dir(host: HostPlatform) -> (r: &'static str)
    ensures
        r@ == platform_dir_spec(host),
{
    match host {
        HostPlatform::Mac => "mac-x64",
        HostPlatform::Linux => "linux-x64",
    }
}

/// Name of the zircon build that holds the sysroot for a CPU.
pub open spec fn zircon_build_spec(cpu: Seq<char>) -> Seq<char> {
    if cpu == "x64"@ {
        "build-user-x86-64"@
    } else {
        "build-user-arm64"@
    }
}

pub fn zircon_build_name(cpu: &str) -> (r: &'static str)
    ensures
        r@ == zircon_build_spec(cpu@),
{
    if same_text(cpu, "x64") {
        "build-user-x86-64"
    } else {
        "build-user-arm64"
    }
}

/// Name of the build output directory, `<debug|release>-<cpu>`.
pub open spec fn out_dir_name_spec(release_os: bool, cpu: Seq<char>) -> Seq<char> {
    (if release_os {
        "release"@
    } else {
        "debug"@
    }) + "-"@ + cpu
}

/// `<root>/out/<debug|release>-<cpu>`.
pub open spec fn out_dir_spec(root: Seq<char>, release_os: bool, cpu: Seq<char>) -> Seq<char> {
    join_spec(join_spec(root, "out"@), out_dir_name_spec(release_os, cpu))
}

/// `<root>/garnet/target/<linker>-unknown-fuchsia/debug`.
pub open spec fn cargo_out_dir_spec(root: Seq<char>, linker: Seq<char>) -> Seq<char> {
    join_spec(
        join_spec(join_spec(join_spec(root, "garnet"@), "target"@), linker + "-unknown-fuchsia"@),
        "debug"@,
    )
}

/// `<root>/out/build-zircon/<zircon build>/sysroot`.
pub open spec fn sysroot_spec(root: Seq<char>, cpu: Seq<char>) -> Seq<char> {
    join_spec(
        join_spec(join_spec(join_spec(root, "out"@), "build-zircon"@), zircon_build_spec(cpu)),
        "sysroot"@,
    )
}

/// `<root>/buildtools/<platform>/clang`.
pub open spec fn toolchain_spec(root: Seq<char>, host: HostPlatform) -> Seq<char> {
    join_spec(join_spec(join_spec(root, "buildtools"@), platform_dir_spec(host)), "clang"@)
}

/// A binary of the toolchain: `<toolchain>/bin/<tool>`.
pub open spec fn tool_spec(root: Seq<char>, host: HostPlatform, tool: Seq<char>) -> Seq<char> {
    join_spec(join_spec(toolchain_spec(root, host), "bin"@), tool)
}

/// Builds `<root>/out/<debug|release>-<cpu>`; whether it exists is not asked.
pub fn target_out_dir_path(fuchsia_root: &str, options: &TargetOptions) -> (r: String)
    ensures
        r@ == out_dir_spec(fuchsia_root@, options.release_os, options.target_cpu@),
{
    let prefix = if options.release_os {
        "release"
    } else {
        "debug"
    };
    let mut name = String::from_str(prefix);
    name.append("-");
    name.append(options.target_cpu);
    let out = join_path(fuchsia_root, "out");
    join_path(out.as_str(), name.as_str())
}

/// Why the tree root or a directory under it could not be resolved.
#[derive(Debug)]
pub enum SdkError {
    /// The override variable names a path that is not a directory.
    Configuration(String),
    /// No ancestor of the working directory holds a build output directory.
    TreeNotFound,
    /// The build output directory under the root does not exist.
    OutDirNotFound(String),
}

/// Validates the build output directory of `fuchsia_root`, given whether it
/// exists on disk.
pub fn possible_target_out_dir(fuchsia_root: &str, options: &TargetOptions, exists: bool) -> (r:
    Result<String, SdkError>)
    ensures
        match r {
            Ok(p) => exists && p@ == out_dir_spec(
                fuchsia_root@,
                options.release_os,
                options.target_cpu@,
            ),
            Err(SdkError::OutDirNotFound(p)) => !exists && p@ == out_dir_spec(
                fuchsia_root@,
                options.release_os,
                options.target_cpu@,
            ),
            Err(_) => false,
        },
{
    let out_dir = target_out_dir_path(fuchsia_root, options);
    if exists {
        Ok(out_dir)
    } else {
        Err(SdkError::OutDirNotFound(out_dir))
    }
}

/// The build output directory of the located root, re-checked for existence.
pub fn target_out_dir(fuchsia_root: &str, options: &TargetOptions, exists: bool) -> (r: Result<
    String,
    SdkError,
>)
    ensures
        match r {
            Ok(p) => exists && p@ == out_dir_spec(
                fuchsia_root@,
                options.release_os,
                options.target_cpu@,
            ),
            Err(SdkError::OutDirNotFound(p)) => !exists && p@ == out_dir_spec(
                fuchsia_root@,
                options.release_os,
                options.target_cpu@,
            ),
            Err(_) => false,
        },
{
    possible_target_out_dir(fuchsia_root, options, exists)
}

/// `<build output dir>/gen`, failing as `target_out_dir` does.
pub fn target_gen_dir(fuchsia_root: &str, options: &TargetOptions, exists: bool) -> (r: Result<
    String,
    SdkError,
>)
    ensures
        match r {
            Ok(p) => exists && p@ == join_spec(
                out_dir_spec(fuchsia_root@, options.release_os, options.target_cpu@),
                "gen"@,
            ),
            Err(SdkError::OutDirNotFound(p)) => !exists && p@ == out_dir_spec(
                fuchsia_root@,
                options.release_os,
                options.target_cpu@,
            ),
            Err(_) => false,
        },
{
    match target_out_dir(fuchsia_root, options, exists) {
        Ok(out_dir) => Ok(join_path(out_dir.as_str(), "gen")),
        Err(e) => Err(e),
    }
}

pub fn cargo_out_dir(fuchsia_root: &str, options: &TargetOptions) -> (r: String)
    ensures
        r@ == cargo_out_dir_spec(fuchsia_root@, options.target_cpu_linker@),
{
    let mut triple = String::from_str(options.target_cpu_linker);
    triple.append("-unknown-fuchsia");
    let garnet = join_path(fuchsia_root, "garnet");
    let target = join_path(garnet.as_str(), "target");
    let triple_dir = join_path(target.as_str(), triple.as_str());
    join_path(triple_dir.as_str(), "debug")
}

pub fn sysroot_path(fuchsia_root: &str, options: &TargetOptions) -> (r: String)
    ensures
        r@ == sysroot_spec(fuchsia_root@, options.target_cpu@),
{
    let zircon_name = zircon_build_name(options.target_cpu);
    let out = join_path(fuchsia_root, "out");
    let build_zircon = join_path(out.as_str(), "build-zircon");
    let build = join_path(build_zircon.as_str(), zircon_name);
    join_path(build.as_str(), "sysroot")
}

pub fn toolchain_path(fuchsia_root: &str, host: HostPlatform) -> (r: String)
    ensures
        r@ == toolchain_spec(fuchsia_root@, host),
{
    let buildtools = join_path(fuchsia_root, "buildtools");
    let platform = join_path(buildtools.as_str(), platform_dir(host));
    join_path(platform.as_str(), "clang")
}

/// `<toolchain>/bin/<tool>`.
pub fn tool_path(fuchsia_root: &str, host: HostPlatform, tool: &str) -> (r: String)
    ensures
        r@ == tool_spec(fuchsia_root@, host, tool@),
{
    let toolchain = toolchain_path(fuchsia_root, host);
    let bin = join_path(toolchain.as_str(), "bin");
    join_path(bin.as_str(), tool)
}

/// The tool that strips binaries, `<toolchain>/bin/llvm-objcopy`.
pub fn strip_tool_path(fuchsia_root: &str, host: HostPlatform) -> (r: String)
    ensures
        r@ == join_spec(toolchain_spec(fuchsia_root@, host), "bin/llvm-objcopy"@),
{
    let toolchain = toolchain_path(fuchsia_root, host);
    join_path(toolchain.as_str(), "bin/llvm-objcopy")
}

pub fn clang_linker_path(fuchsia_root: &str, host: HostPlatform) -> (r: String)
    ensures
        r@ == tool_spec(fuchsia_root@, host, "clang"@),
{
    tool_path(fuchsia_root, host, "clang")
}

pub fn clang_c_compiler_path(fuchsia_root: &str, host: HostPlatform) -> (r: String)
    ensures
        r@ == tool_spec(fuchsia_root@, host, "clang"@),
{
    tool_path(fuchsia_root, host, "clang")
}

pub fn clang_cpp_compiler_path(fuchsia_root: &str, host: HostPlatform) -> (r: String)
    ensures
        r@ == tool_spec(fuchsia_root@, host, "clang++"@),
{
    tool_path(fuchsia_root, host, "clang++")
}

pub fn clang_archiver_path(fuchsia_root: &str, host: HostPlatform) -> (r: String)
    ensures
        r@ == tool_spec(fuchsia_root@, host, "llvm-ar"@),
{
    tool_path(fuchsia_root, host, "llvm-ar")
}

pub fn clang_ranlib_path(fuchsia_root: &str, host: HostPlatform) -> (r: String)
    ensures
        r@ == tool_spec(fuchsia_root@, host, "llvm-ranlib"@),
{
    tool_path(fuchsia_root, host, "llvm-ranlib")
}

/// The helper script, `<root>/scripts/fx`.
pub fn fx_path(fuchsia_root: &str) -> (r: String)
    ensures
        r@ == join_spec(fuchsia_root@, "scripts/fx"@),
{
    join_path(fuchsia_root, "scripts/fx")
}

/// An `SdkError` as seen by contracts.
pub enum SdkErrorView {
    Configuration(Seq<char>),
    TreeNotFound,
    OutDirNotFound(Seq<char>),
}

impl View for SdkError {
    type V = SdkErrorView;

    open spec fn view(&self) -> SdkErrorView {
        match self {
            SdkError::Configuration(p) => SdkErrorView::Configuration(p@),
            SdkError::TreeNotFound => SdkErrorView::TreeNotFound,
            SdkError::OutDirNotFound(p) => SdkErrorView::OutDirNotFound(p@),
        }
    }
}

/// A path result as seen by contracts.
pub open spec fn path_outcome(r: Result<String, SdkError>) -> Result<Seq<char>, SdkErrorView> {
    match r {
        Ok(p) => Ok(p@),
        Err(e) => Err(e@),
    }
}

/// The override variable naming the tree root: unset, or set to `path`,
/// with whether that path is a directory.
pub enum RootOverride {
    Unset,
    Given { path: String, is_dir: bool },
}

impl View for RootOverride {
    type V = Option<(Seq<char>, bool)>;

    open spec fn view(&self) -> Option<(Seq<char>, bool)> {
        match self {
            RootOverride::Unset => None,
            RootOverride::Given { path, is_dir } => Some((path@, *is_dir)),
        }
    }
}

pub open spec fn components_view(cwd: Seq<String>) -> Seq<Seq<char>> {
    cwd.map_values(|c: String| c@)
}

/// The absolute path made of the components `comps`.
pub open spec fn path_of(comps: Seq<Seq<char>>) -> Seq<char>
    decreases comps.len(),
{
    if comps.len() == 0 {
        seq!['/']
    } else {
        join_spec(path_of(comps.drop_last()), comps.last())
    }
}

/// The directory `up` levels above the directory whose components are `cwd`.
pub open spec fn ancestor(cwd: Seq<Seq<char>>, up: int) -> Seq<char> {
    path_of(cwd.take(cwd.len() - up))
}

/// The first level at or after `i` whose probe succeeded.
pub open spec fn first_qualifying(q: Seq<bool>, i: int) -> Option<int>
    decreases q.len() - i,
{
    if i < 0 || i >= q.len() {
        None
    } else if q[i] {
        Some(i)
    } else {
        first_qualifying(q, i + 1)
    }
}

/// Where the root search ends: the override when it is set (failing if it is
/// not a directory), else the nearest ancestor of `cwd` whose probe in `q`
/// succeeded, `q[i]` being the probe of the ancestor `i` levels up.
pub open spec fn locate_spec(ov: Option<(Seq<char>, bool)>, cwd: Seq<Seq<char>>, q: Seq<bool>) -> Result<
    Seq<char>,
    SdkErrorView,
> {
    match ov {
        Some((path, is_dir)) => if is_dir {
            Ok(path)
        } else {
            Err(SdkErrorView::Configuration(path))
        },
        None => match first_qualifying(q, 0) {
            Some(i) => Ok(ancestor(cwd, i)),
            None => Err(SdkErrorView::TreeNotFound),
        },
    }
}

/// The path of the directory `up` levels above the one whose components are
/// `cwd`.
pub fn ancestor_path(cwd: &Vec<String>, up: usize) -> (r: String)
    requires
        up <= cwd.len(),
    ensures
        r@ == ancestor(components_view(cwd@), up as int),
{
    let ghost comps = components_view(cwd@);
    let n = cwd.len() - up;
    proof {
        reveal_strlit("/");
    }
    let mut r = String::from_str("/");
    assert(comps.take(0).len() == 0);
    let mut i: usize = 0;
    while i < n
        invariant
            n <= cwd.len(),
            comps == components_view(cwd@),
            i <= n,
            r@ == path_of(comps.take(i as int)),
        decreases n - i,
    {
        let next = join_path(r.as_str(), cwd[i].as_str());
        assert(comps.take(i + 1).drop_last() =~= comps.take(i as int));
        r = next;
        i = i + 1;
    }
    r
}

/// Every directory the root search may probe, from `cwd` itself (index 0) up
/// to the filesystem root (last).
pub fn candidate_roots(cwd: &Vec<String>) -> (r: Vec<String>)
    ensures
        r.len() == cwd.len() + 1,
        forall|i: int| 0 <= i < r.len() ==> #[trigger] r[i]@ == ancestor(components_view(cwd@), i),
{
    let mut r: Vec<String> = Vec::new();
    let mut up: usize = 0;
    while up < cwd.len()
        invariant
            up <= cwd.len(),
            r.len() == up,
            forall|i: int| 0 <= i < r.len() ==> #[trigger] r[i]@ == ancestor(components_view(cwd@), i),
        decreases cwd.len() - up,
    {
        r.push(ancestor_path(cwd, up));
        up = up + 1;
    }
    r.push(ancestor_path(cwd, cwd.len()));
    r
}

/// Locates the tree root. `root_override` is the override variable; `cwd`
/// holds the components of the working directory and `probes[i]` tells
/// whether the ancestor `i` levels up has a build output directory.
pub fn fuchsia_root(root_override: &RootOverride, cwd: &Vec<String>, probes: &Vec<bool>) -> (r:
    Result<String, SdkError>)
    requires
        probes.len() == cwd.len() + 1,
    ensures
        path_outcome(r) == locate_spec(root_override@, components_view(cwd@), probes@),
{
    match root_override {
        RootOverride::Given { path, is_dir } => {
            if *is_dir {
                return Ok(path.clone());
            } else {
                return Err(SdkError::Configuration(path.clone()));
            }
        },
        RootOverride::Unset => {},
    }
    let mut i: usize = 0;
    while i < probes.len()
        invariant
            i <= probes.len(),
            probes.len() == cwd.len() + 1,
            root_override is Unset,
            first_qualifying(probes@, 0) == first_qualifying(probes@, i as int),
        decreases probes.len() - i,
    {
        if probes[i] {
            assert(first_qualifying(probes@, i as int) == Some(i as int));
            return Ok(ancestor_path(cwd, i));
        }
        i = i + 1;
    }
    Err(SdkError::TreeNotFound)
}

proof fn lemma_first_qualifying_at(q: Seq<bool>, i: int, k: int)
    requires
        0 <= i <= k < q.len(),
        q[k],
        forall|j: int| i <= j < k ==> !q[j],
    ensures
        first_qualifying(q, i) == Some(k),
    decreases k - i,
{
    if i < k {
        lemma_first_qualifying_at(q, i + 1, k);
    }
}

proof fn lemma_first_qualifying_none(q: Seq<bool>, i: int)
    requires
        0 <= i,
        forall|j: int| i <= j < q.len() ==> !q[j],
    ensures
        first_qualifying(q, i) is None,
    decreases q.len() - i,
{
    if i < q.len() {
        lemma_first_qualifying_none(q, i + 1);
    }
}

/// Without an override, when the only qualifying directories are at or above
/// the ancestor `anc`, the search ends at `anc` whichever of its descendants
/// `anc + below` it started from.
pub proof fn lemma_root_found_from_any_descendant(
    anc: Seq<Seq<char>>,
    below: Seq<Seq<char>>,
    q: Seq<bool>,
)
    requires
        q.len() == anc.len() + below.len() + 1,
        q[below.len() as int],
        forall|j: int| 0 <= j < below.len() ==> !q[j],
    ensures
        locate_spec(None, anc + below, q) == Ok::<Seq<char>, SdkErrorView>(path_of(anc)),
{
    lemma_first_qualifying_at(q, 0, below.len() as int);
    assert((anc + below).take(anc.len() as int) =~= anc);
}

/// Without an override, when no directory up to the filesystem root
/// qualifies, the search fails with `TreeNotFound`.
pub proof fn lemma_root_not_found(cwd: Seq<Seq<char>>, q: Seq<bool>)
    requires
        forall|j: int| 0 <= j < q.len() ==> !q[j],
    ensures
        locate_spec(None, cwd, q) == Err::<Seq<char>, SdkErrorView>(SdkErrorView::TreeNotFound),
{
    lemma_first_qualifying_none(q, 0);
}

/// An override that is not a directory fails with a configuration error,
/// whatever the ancestors of the working directory hold.
pub proof fn lemma_invalid_override_fails(path: Seq<char>, cwd: Seq<Seq<char>>, q: Seq<bool>)
    ensures
        locate_spec(Some((path, false)), cwd, q) == Err::<Seq<char>, SdkErrorView>(
            SdkErrorView::Configuration(path),
        ),
{
}

/// Every path derived from a tree root and a target: the build output
/// directory, its `gen` directory, the cargo output directory, the sysroot,
/// the toolchain, its tools, and the helper script.
pub open spec fn derived_paths(
    root: Seq<char>,
    release_os: bool,
    cpu: Seq<char>,
    linker: Seq<char>,
    host: HostPlatform,
) -> Seq<Seq<char>> {
    seq![
        out_dir_spec(root, release_os, cpu),
        join_spec(out_dir_spec(root, release_os, cpu), "gen"@),
        cargo_out_dir_spec(root, linker),
        sysroot_spec(root, cpu),
        toolchain_spec(root, host),
        tool_spec(root, host, "clang"@),
        tool_spec(root, host, "clang++"@),
        tool_spec(root, host, "llvm-ar"@),
        tool_spec(root, host, "llvm-ranlib"@),
        join_spec(toolchain_spec(root, host), "bin/llvm-objcopy"@),
        join_spec(root, "scripts/fx"@),
    ]
}

/// Deriving the paths twice from the same root and target gives the same
/// paths.
pub proof fn lemma_derived_paths_deterministic(
    root1: Seq<char>,
    root2: Seq<char>,
    release_os1: bool,
    release_os2: bool,
    cpu1: Seq<char>,
    cpu2: Seq<char>,
    linker1: Seq<char>,
    linker2: Seq<char>,
    host1: HostPlatform,
    host2: HostPlatform,
)
    requires
        root1 == root2,
        release_os1 == release_os2,
        cpu1 == cpu2,
        linker1 == linker2,
        host1 == host2,
    ensures
        derived_paths(root1, release_os1, cpu1, linker1, host1) == derived_paths(
            root2,
            release_os2,
            cpu2,
            linker2,
            host2,
        ),
{
}

} // verus!
