use vstd::prelude::*;
use vstd::string::*;

use crate::sdk::{sysroot_path, sysroot_spec, tool_path, tool_spec, HostPlatform, TargetOptions};
use crate::text::{join_path, join_spec};

verus! {

/// A process to start: the program, its arguments, and the variables set in
/// its environment, in the order in which they are set.
#[derive(Debug)]
pub struct ToolCommand {
    pub program: String,
    pub args: Vec<String>,
    pub env: Vec<(String, String)>,
}

/// A `ToolCommand` as seen by contracts.
pub struct CommandView {
    pub program: Seq<char>,
    pub args: Seq<Seq<char>>,
    pub env: Seq<(Seq<char>, Seq<char>)>,
}

pub open spec fn strings_view(v: Seq<String>) -> Seq<Seq<char>> {
    v.map_values(|s: String| s@)
}

pub open spec fn pairs_view(v: Seq<(String, String)>) -> Seq<(Seq<char>, Seq<char>)> {
    v.map_values(|p: (String, String)| (p.0@, p.1@))
}

impl View for ToolCommand {
    type V = CommandView;

    open spec fn view(&self) -> CommandView {
        CommandView {
            program: self.program@,
            args: strings_view(self.args@),
            env: pairs_view(self.env@),
        }
    }
}

/// `$HOME/.fargo/native_deps/<cpu>`, where cross-built native libraries are
/// installed.
pub open spec fn cross_root_spec(home: Seq<char>, cpu: Seq<char>) -> Seq<char> {
    join_spec(join_spec(join_spec(home, ".fargo"@), "native_deps"@), cpu)
}

/// `<cross root>/lib/pkgconfig`.
pub open spec fn pkg_config_path_spec(home: Seq<char>, cpu: Seq<char>) -> Seq<char> {
    join_spec(join_spec(cross_root_spec(home, cpu), "lib"@), "pkgconfig"@)
}

/// The variables that keep pkg-config away from the host's libraries and
/// make it resolve static libraries.
pub open spec fn isolation_env(home: Seq<char>, cpu: Seq<char>) -> Seq<(Seq<char>, Seq<char>)> {
    seq![
        ("PKG_CONFIG_PATH"@, Seq::<char>::empty()),
        ("PKG_CONFIG_LIBDIR"@, pkg_config_path_spec(home, cpu)),
        ("PKG_CONFIG_ALL_STATIC"@, "1"@),
    ]
}

/// The compiler flags of a cross build.
pub open spec fn common_c_flags_spec(sysroot: Seq<char>, headers: Seq<char>) -> Seq<char> {
    "--sysroot="@ + sysroot + " --target=x86_64-fuchsia "@ + "-fPIC"@ + " -I"@ + headers
}

/// The linker flags of a cross build: the earlier `LDFLAGS`, the compiler
/// flags and the library directory.
pub open spec fn ld_flags_spec(prev: Seq<char>, common: Seq<char>, lib: Seq<char>) -> Seq<char> {
    prev + " "@ + common + " -L"@ + lib
}

pub open spec fn host_arg() -> Seq<char> {
    "--host=x86_64-fuchsia-elf"@
}

/// The arguments of `configure`: `--host` when asked for, the install
/// prefix, then the caller's arguments.
pub open spec fn configure_args_spec(use_host: bool, cross_root: Seq<char>, args: Seq<Seq<char>>) -> Seq<
    Seq<char>,
> {
    (if use_host {
        seq![host_arg()]
    } else {
        Seq::empty()
    }) + seq!["--prefix="@ + cross_root] + args
}

/// The environment of `configure`.
pub open spec fn configure_env_spec(
    home: Seq<char>,
    prev_ldflags: Seq<char>,
    fuchsia_root: Seq<char>,
    host: HostPlatform,
    cpu: Seq<char>,
) -> Seq<(Seq<char>, Seq<char>)> {
    let cross = cross_root_spec(home, cpu);
    let common = common_c_flags_spec(sysroot_spec(fuchsia_root, cpu), join_spec(cross, "include"@));
    let ld = ld_flags_spec(prev_ldflags, common, join_spec(cross, "lib"@));
    seq![
        ("CC"@, tool_spec(fuchsia_root, host, "clang"@)),
        ("CXX"@, tool_spec(fuchsia_root, host, "clang++"@)),
        ("RANLIB"@, tool_spec(fuchsia_root, host, "llvm-ranlib"@)),
        ("LD"@, tool_spec(fuchsia_root, host, "llvm-lld"@)),
        ("AR"@, tool_spec(fuchsia_root, host, "llvm-ar"@)),
        ("CFLAGS"@, common),
        ("CXXFLAGS"@, common),
        ("CPPFLAGS"@, common),
        ("LDFLAGS"@, ld),
    ] + isolation_env(home, cpu)
}

pub fn cross_root(home: &str, target_options: &TargetOptions) -> (r: String)
    ensures
        r@ == cross_root_spec(home@, target_options.target_cpu@),
{
    let fargo = join_path(home, ".fargo");
    let native = join_path(fargo.as_str(), "native_deps");
    join_path(native.as_str(), target_options.target_cpu)
}

pub fn pkg_config_path(home: &str, target_options: &TargetOptions) -> (r: String)
    ensures
        r@ == pkg_config_path_spec(home@, target_options.target_cpu@),
{
    let root = cross_root(home, target_options);
    let lib = join_path(root.as_str(), "lib");
    join_path(lib.as_str(), "pkgconfig")
}

fn push_env(env: &mut Vec<(String, String)>, key: &str, value: String)
    ensures
        pairs_view(final(env)@) == pairs_view(old(env)@).push((key@, value@)),
{
    env.push((String::from_str(key), value));
    assert(pairs_view(env@) =~= pairs_view(old(env)@).push((key@, value@)));
}

fn push_isolation_env(env: &mut Vec<(String, String)>, home: &str, target_options: &TargetOptions)
    ensures
        pairs_view(final(env)@) == pairs_view(old(env)@) + isolation_env(
            home@,
            target_options.target_cpu@,
        ),
{
    push_env(env, "PKG_CONFIG_PATH", String::new());
    push_env(env, "PKG_CONFIG_LIBDIR", pkg_config_path(home, target_options));
    push_env(env, "PKG_CONFIG_ALL_STATIC", String::from_str("1"));
    assert(pairs_view(env@) =~= pairs_view(old(env)@) + isolation_env(
        home@,
        target_options.target_cpu@,
    ));
}

fn copy_strings(v: &Vec<String>) -> (r: Vec<String>)
    ensures
        strings_view(r@) == strings_view(v@),
{
    let mut r: Vec<String> = Vec::new();
    let mut i: usize = 0;
    while i < v.len()
        invariant
            i <= v.len(),
            r.len() == i,
            forall|j: int| 0 <= j < i ==> #[trigger] r@[j] == v@[j],
        decreases v.len() - i,
    {
        r.push(v[i].clone());
        i = i + 1;
    }
    assert(strings_view(r@) =~= strings_view(v@));
    r
}

/// The pkg-config invocation for the target: the caller's arguments, with
/// the search path confined to the cross root.
pub fn pkg_config_command(args: &Vec<String>, home: &str, target_options: &TargetOptions) -> (r:
    ToolCommand)
    ensures
        r@.program == "pkg-config"@,
        r@.args == strings_view(args@),
        r@.env == isolation_env(home@, target_options.target_cpu@),
{
    let mut env: Vec<(String, String)> = Vec::new();
    push_isolation_env(&mut env, home, target_options);
    assert(pairs_view(env@) =~= isolation_env(home@, target_options.target_cpu@));
    ToolCommand { program: String::from_str("pkg-config"), args: copy_strings(args), env: env }
}

/// The exit code reported for a finished process: its status code, or 1
/// when a signal ended it.
pub fn exit_code_of(code: Option<i32>) -> (r: i32)
    ensures
        r == match code {
            Some(c) => c,
            None => 1i32,
        },
{
    match code {
        Some(c) => c,
        None => 1,
    }
}

/// The `configure` invocation for the target. `cwd` is the canonical working
/// directory, which holds the script; `prev_ldflags` is the `LDFLAGS` of the
/// calling process, empty when unset.
pub fn configure_command(
    cwd: &str,
    use_host: bool,
    args: &Vec<String>,
    home: &str,
    prev_ldflags: &str,
    fuchsia_root: &str,
    host: HostPlatform,
    target_options: &TargetOptions,
) -> (r: ToolCommand)
    ensures
        r@.program == join_spec(cwd@, "configure"@),
        r@.args == configure_args_spec(
            use_host,
            cross_root_spec(home@, target_options.target_cpu@),
            strings_view(args@),
        ),
        r@.env == configure_env_spec(
            home@,
            prev_ldflags@,
            fuchsia_root@,
            host,
            target_options.target_cpu@,
        ),
{
    let cross = cross_root(home, target_options);
    let cross_lib = join_path(cross.as_str(), "lib");
    let cross_headers = join_path(cross.as_str(), "include");
    let sysroot = sysroot_path(fuchsia_root, target_options);

    let mut common = String::from_str("--sysroot=");
    common.append(sysroot.as_str());
    common.append(" --target=x86_64-fuchsia ");
    common.append("-fPIC");
    common.append(" -I");
    common.append(cross_headers.as_str());

    let mut ld = String::from_str(prev_ldflags);
    ld.append(" ");
    ld.append(common.as_str());
    ld.append(" -L");
    ld.append(cross_lib.as_str());

    let mut prefix = String::from_str("--prefix=");
    prefix.append(cross.as_str());

    let mut configure_args: Vec<String> = Vec::new();
    if use_host {
        configure_args.push(String::from_str("--host=x86_64-fuchsia-elf"));
    }
    configure_args.push(prefix);
    let ghost fixed = configure_args@;
    let ghost lead: Seq<Seq<char>> = if use_host {
        seq![host_arg()]
    } else {
        Seq::empty()
    };
    assert(strings_view(fixed) =~= lead + seq!["--prefix="@ + cross@]);
    let mut i: usize = 0;
    while i < args.len()
        invariant
            i <= args.len(),
            configure_args.len() == fixed.len() + i,
            forall|j: int| 0 <= j < fixed.len() ==> #[trigger] configure_args@[j] == fixed[j],
            forall|j: int| 0 <= j < i ==> #[trigger] configure_args@[fixed.len() + j] == args@[j],
        decreases args.len() - i,
    {
        configure_args.push(args[i].clone());
        i = i + 1;
    }
    assert forall|j: int| fixed.len() <= j < configure_args.len() implies configure_args@[j]
        == args@[j - fixed.len()] by {
        assert(configure_args@[fixed.len() + (j - fixed.len())] == args@[j - fixed.len()]);
    }
    assert(strings_view(configure_args@) =~= strings_view(fixed) + strings_view(args@));
    assert(strings_view(configure_args@) =~= configure_args_spec(
        use_host,
        cross_root_spec(home@, target_options.target_cpu@),
        strings_view(args@),
    ));

    let mut env: Vec<(String, String)> = Vec::new();
    push_env(&mut env, "CC", tool_path(fuchsia_root, host, "clang"));
    push_env(&mut env, "CXX", tool_path(fuchsia_root, host, "clang++"));
    push_env(&mut env, "RANLIB", tool_path(fuchsia_root, host, "llvm-ranlib"));
    push_env(&mut env, "LD", tool_path(fuchsia_root, host, "llvm-lld"));
    push_env(&mut env, "AR", tool_path(fuchsia_root, host, "llvm-ar"));
    push_env(&mut env, "CFLAGS", common.clone());
    push_env(&mut env, "CXXFLAGS", common.clone());
    push_env(&mut env, "CPPFLAGS", common);
    push_env(&mut env, "LDFLAGS", ld);
    push_isolation_env(&mut env, home, target_options);
    assert(pairs_view(env@) =~= configure_env_spec(
        home@,
        prev_ldflags@,
        fuchsia_root@,
        host,
        target_options.target_cpu@,
    ));

    ToolCommand { program: join_path(cwd, "configure"), args: configure_args, env: env }
}

/// Whether `w` occurs in `s`.
pub open spec fn contains_text(s: Seq<char>, w: Seq<char>) -> bool {
    exists|i: int| 0 <= i && i + w.len() <= s.len() && #[trigger] s.subrange(i, i + w.len()) == w
}

/// The compiler flags, and the linker flags built on them, always hold
/// `--sysroot=<sysroot>` and `-fPIC`.
pub proof fn lemma_flags_hold_sysroot_and_pic(
    sysroot: Seq<char>,
    headers: Seq<char>,
    prev: Seq<char>,
    lib: Seq<char>,
)
    ensures
        contains_text(common_c_flags_spec(sysroot, headers), "--sysroot="@ + sysroot),
        contains_text(common_c_flags_spec(sysroot, headers), "-fPIC"@),
        contains_text(
            ld_flags_spec(prev, common_c_flags_spec(sysroot, headers), lib),
            "--sysroot="@ + sysroot,
        ),
        contains_text(ld_flags_spec(prev, common_c_flags_spec(sysroot, headers), lib), "-fPIC"@),
{
    let a = "--sysroot="@ + sysroot;
    let b = " --target=x86_64-fuchsia "@;
    let f = "-fPIC"@;
    let c = common_c_flags_spec(sysroot, headers);
    let al: int = a.len() as int;
    let fl: int = f.len() as int;
    let k: int = al + b.len();
    assert(c.subrange(0, 0 + al) =~= a);
    assert(c.subrange(k, k + fl) =~= f);
    let pl: int = (prev + " "@).len() as int;
    let l = ld_flags_spec(prev, c, lib);
    assert(l.subrange(pl, pl + al) =~= a);
    assert(l.subrange(pl + k, pl + k + fl) =~= f);
}

/// `configure` gets `--host=x86_64-fuchsia-elf` exactly when it is asked
/// for, provided that the caller's own arguments do not hold it.
pub proof fn lemma_host_arg_iff_requested(use_host: bool, cross_root: Seq<char>, args: Seq<Seq<char>>)
    requires
        !args.contains(host_arg()),
    ensures
        configure_args_spec(use_host, cross_root, args).contains(host_arg()) <==> use_host,
{
    reveal_strlit("--host=x86_64-fuchsia-elf");
    reveal_strlit("--prefix=");
    let all = configure_args_spec(use_host, cross_root, args);
    let prefix = "--prefix="@ + cross_root;
    assert(prefix[2] == 'p');
    assert(prefix != host_arg());
    if use_host {
        assert(all[0] == host_arg());
    } else {
        assert(all =~= seq![prefix] + args);
        if all.contains(host_arg()) {
            let j = choose|j: int| 0 <= j < all.len() && all[j] == host_arg();
            assert(j > 0);
            assert(args[j - 1] == host_arg());
        }
    }
}

} // verus!
