//! Decisions behind the `cargo verify-pallet` front end: which tool an
//! invocation routes to, and the exact command each route runs. The
//! surrounding process — reading real arguments and environment, spawning
//! the chosen command — stays outside; everything here is a function from
//! plain values to plain values.

use vstd::prelude::*;

verus! {

/// Whether `s` ends with `suf`.
pub open spec fn spec_ends_with(s: Seq<char>, suf: Seq<char>) -> bool {
    s.len() >= suf.len() && s.subrange(s.len() - suf.len(), s.len() as int) == suf
}

/// The trailing path component of `s`: everything after the last path
/// separator.
pub open spec fn file_name_of(s: Seq<char>) -> Seq<char>
    decreases s.len(),
{
    if s.len() == 0 {
        Seq::empty()
    } else if s.last() == '/' || s.last() == '\\' {
        Seq::empty()
    } else {
        file_name_of(s.drop_last()).push(s.last())
    }
}

proof fn lemma_file_name_tail(s: Seq<char>, k: int)
    requires
        0 <= k <= s.len(),
        forall|j: int| s.len() - k <= j < s.len() ==> s[j] != '/' && s[j] != '\\',
        k == s.len() || s[s.len() - k - 1] == '/' || s[s.len() - k - 1] == '\\',
    ensures
        file_name_of(s) == s.subrange(s.len() - k, s.len() as int),
    decreases k,
{
    if k == 0 {
        assert(s.subrange(s.len() as int, s.len() as int) =~= Seq::<char>::empty());
    } else {
        let t = s.drop_last();
        lemma_file_name_tail(t, k - 1);
        assert(file_name_of(s) == file_name_of(t).push(s.last()));
        assert(t.subrange(t.len() - (k - 1), t.len() as int).push(s.last()) =~= s.subrange(
            s.len() - k,
            s.len() as int,
        ));
    }
}

fn ends_with(s: &str, suf: &str) -> (r: bool)
    ensures
        r == spec_ends_with(s@, suf@),
{
    let sl = s.unicode_len();
    let fl = suf.unicode_len();
    if sl < fl {
        return false;
    }
    let mut i: usize = 0;
    while i < fl
        invariant
            i <= fl,
            fl <= sl,
            sl == s@.len(),
            fl == suf@.len(),
            forall|j: int| 0 <= j < i ==> s@[s@.len() - suf@.len() + j] == suf@[j],
        decreases fl - i,
    {
        if s.get_char(sl - fl + i) != suf.get_char(i) {
            proof {
                let sub = s@.subrange(s@.len() - suf@.len(), s@.len() as int);
                assert(sub[i as int] == s@[s@.len() - suf@.len() + i]);
                assert(sub != suf@);
            }
            return false;
        }
        i = i + 1;
    }
    proof {
        assert(s@.subrange(s@.len() - suf@.len(), s@.len() as int) =~= suf@);
    }
    true
}

/// Whether the trailing path component of `path` is exactly `name`, which
/// must itself hold no separator.
fn path_has_file_name(path: &str, name: &str) -> (r: bool)
    requires
        forall|j: int| 0 <= j < name@.len() ==> name@[j] != '/' && name@[j] != '\\',
    ensures
        r == (file_name_of(path@) == name@),
{
    let pl = path.unicode_len();
    // length of the trailing separator-free run
    let mut k: usize = 0;
    loop
        invariant
            k <= pl,
            pl == path@.len(),
            forall|j: int| path@.len() - k <= j < path@.len() ==> path@[j] != '/' && path@[j] != '\\',
        ensures
            k <= pl,
            pl == path@.len(),
            forall|j: int| path@.len() - k <= j < path@.len() ==> path@[j] != '/' && path@[j] != '\\',
            k == pl || path@[path@.len() - k - 1] == '/' || path@[path@.len() - k - 1] == '\\',
        decreases pl - k,
    {
        if k >= pl {
            break;
        }
        let c = path.get_char(pl - k - 1);
        if c == '/' || c == '\\' {
            break;
        }
        k = k + 1;
    }
    proof {
        lemma_file_name_tail(path@, k as int);
    }
    let nl = name.unicode_len();
    if nl != k {
        proof {
            assert(file_name_of(path@).len() == k);
        }
        return false;
    }
    let mut i: usize = 0;
    while i < k
        invariant
            i <= k,
            k <= pl,
            pl == path@.len(),
            nl == name@.len(),
            nl == k,
            file_name_of(path@) == path@.subrange(path@.len() - k, path@.len() as int),
            forall|j: int| 0 <= j < i ==> path@[path@.len() - k + j] == name@[j],
        decreases k - i,
    {
        if path.get_char(pl - k + i) != name.get_char(i) {
            proof {
                let sub = path@.subrange(path@.len() - k, path@.len() as int);
                assert(sub[i as int] == path@[path@.len() - k + i]);
                assert(sub != name@);
            }
            return false;
        }
        i = i + 1;
    }
    proof {
        assert(path@.subrange(path@.len() - k, path@.len() as int) =~= name@);
    }
    true
}

/// Whether `path` names the Rust compiler executable.
pub open spec fn spec_is_rustc_path(s: Seq<char>) -> bool {
    file_name_of(s) == "rustc"@ || file_name_of(s) == "rustc.exe"@
}

/// Whether `path` names the Rust compiler executable, exactly as
/// `spec_is_rustc_path` says.
pub fn is_rustc_path(path: &str) -> (r: bool)
    ensures
        r == spec_is_rustc_path(path@),
{
    proof {
        reveal_strlit("rustc");
        reveal_strlit("rustc.exe");
        assert(forall|j: int|
            0 <= j < "rustc"@.len() ==> "rustc"@[j] != '/' && "rustc"@[j] != '\\');
        assert(forall|j: int|
            0 <= j < "rustc.exe"@.len() ==> "rustc.exe"@[j] != '/' && "rustc.exe"@[j] != '\\');
    }
    path_has_file_name(path, "rustc") || path_has_file_name(path, "rustc.exe")
}

/// Whether an argument list is a build-script compilation: some argument is
/// a `build.rs` file, and the declared crate name is `build_script_build`.
pub open spec fn spec_is_build_script(args: Seq<Seq<char>>) -> bool {
    (exists|i: int| 0 <= i < args.len() && file_name_of(#[trigger] args[i]) == "build.rs"@)
        && (exists|i: int|
        0 < i < args.len() && #[trigger] args[i] == "build_script_build"@ && spec_ends_with(
            args[i - 1],
            "crate-name"@,
        ))
}

/// Decides whether the current compilation target is a build script, exactly
/// as `spec_is_build_script` says.
#[verifier::loop_isolation(false)]
pub fn is_build_script(args: &Vec<String>) -> (r: bool)
    ensures
        r == spec_is_build_script(args.deep_view()),
{
    proof {
        reveal_strlit("build.rs");
        reveal_strlit("build_script_build");
        reveal_strlit("crate-name");
        assert(forall|j: int|
            0 <= j < "build.rs"@.len() ==> "build.rs"@[j] != '/' && "build.rs"@[j] != '\\');
    }
    let ghost dv = args.deep_view();
    let mut has_file: bool = false;
    let mut i: usize = 0;
    while i < args.len()
        invariant
            i <= args.len(),
            dv == args.deep_view(),
            dv.len() == args.len(),
            has_file == exists|j: int| 0 <= j < i && file_name_of(#[trigger] dv[j]) == "build.rs"@,
        decreases args.len() - i,
    {
        proof {
            assert(dv[i as int] == args@[i as int]@);
        }
        if path_has_file_name(args[i].as_str(), "build.rs") {
            proof {
                assert(file_name_of(dv[i as int]) == "build.rs"@);
            }
            has_file = true;
        }
        i = i + 1;
    }
    if !has_file {
        return false;
    }
    let mut i: usize = 1;
    while i < args.len()
        invariant
            1 <= i <= args.len() || args.len() == 0,
            dv == args.deep_view(),
            dv.len() == args.len(),
            forall|j: int|
                0 < j < i ==> !(#[trigger] dv[j] == "build_script_build"@ && spec_ends_with(
                    dv[j - 1],
                    "crate-name"@,
                )),
        decreases args.len() - i,
    {
        proof {
            assert(dv[i as int] == args@[i as int]@);
            assert(dv[i as int - 1] == args@[i as int - 1]@);
        }
        let is_name = crate::text::str_equal(args[i].as_str(), "build_script_build");
        if is_name && ends_with(args[i - 1].as_str(), "crate-name") {
            return true;
        }
        i = i + 1;
    }
    false
}

/// What one invocation of the front end does.
#[derive(Debug, Clone, Copy, PartialEq, Eq, Structural)]
pub enum CliAction {
    /// Run the build tool with this executable installed as the compiler
    /// wrapper.
    RunCargo,
    /// Analyze the primary package with the verifier.
    RunVerifier,
    /// Compile a dependency or build script with the plain compiler.
    CompileDependency,
    /// The first argument names no supported subcommand.
    UsageError,
}

/// The route an argument list takes: the dedicated subcommand runs the
/// build tool; a compiler-wrapper invocation analyzes the primary package
/// unless it is a dependency or a build script; anything else is a usage
/// error.
pub open spec fn spec_route(args: Seq<Seq<char>>, is_primary_package: bool) -> CliAction {
    if args.len() < 2 {
        CliAction::UsageError
    } else if args[1] == "verify-pallet"@ {
        CliAction::RunCargo
    } else if spec_is_rustc_path(args[1]) {
        if is_primary_package && !spec_is_build_script(args) {
            CliAction::RunVerifier
        } else {
            CliAction::CompileDependency
        }
    } else {
        CliAction::UsageError
    }
}

/// Routes one invocation, exactly as `spec_route` says.
pub fn route(args: &Vec<String>, is_primary_package: bool) -> (r: CliAction)
    ensures
        r == spec_route(args.deep_view(), is_primary_package),
{
    proof {
        reveal_strlit("verify-pallet");
    }
    if args.len() < 2 {
        return CliAction::UsageError;
    }
    proof {
        assert(args.deep_view()[1] == args@[1]@);
    }
    if crate::text::str_equal(args[1].as_str(), "verify-pallet") {
        CliAction::RunCargo
    } else if is_rustc_path(args[1].as_str()) {
        if is_primary_package && !is_build_script(args) {
            CliAction::RunVerifier
        } else {
            CliAction::CompileDependency
        }
    } else {
        CliAction::UsageError
    }
}

/// A command for the surrounding process to spawn: a program, its
/// arguments, and the environment entries to set.
pub struct CommandPlan {
    pub program: String,
    pub args: Vec<String>,
    pub envs: Vec<(String, String)>,
}

/// The flags that make the build tool compile analyzer-ready code: enable
/// the analysis-only configuration and keep IR for all functions.
pub fn analysis_rustflags() -> (r: &'static str)
    ensures
        r@ == "--cfg=mirai -Zalways_encode_mir"@,
{
    "--cfg=mirai -Zalways_encode_mir"
}

/// The command the `verify-pallet` subcommand runs: the build tool's check
/// subcommand with this executable as compiler wrapper, the analysis flags,
/// a pinned toolchain where one is known, and the caller's remaining
/// arguments forwarded unchanged.
pub fn build_cargo_command(
    cargo_program: String,
    self_exe: String,
    toolchain: Option<String>,
    forwarded: Vec<String>,
) -> (r: CommandPlan)
    ensures
        r.program@ == cargo_program@,
        r.args@.len() == 1 + forwarded@.len(),
        r.args@[0]@ == "check"@,
        forall|i: int| 0 <= i < forwarded@.len() ==> r.args@[i + 1]@ == #[trigger] forwarded@[i]@,
        r.envs@.len() == (if toolchain is Some { 3int } else { 2 }),
        r.envs@[0].0@ == "RUSTC_WRAPPER"@ && r.envs@[0].1@ == self_exe@,
        r.envs@[1].0@ == "RUSTFLAGS"@ && r.envs@[1].1@ == "--cfg=mirai -Zalways_encode_mir"@,
        toolchain matches Some(t) ==> r.envs@[2].0@ == "RUSTUP_TOOLCHAIN"@ && r.envs@[2].1@ == t@,
{
    let mut args: Vec<String> = Vec::new();
    args.push(String::from_str("check"));
    let mut i: usize = 0;
    while i < forwarded.len()
        invariant
            i <= forwarded.len(),
            args@.len() == 1 + i,
            args@[0]@ == "check"@,
            forall|j: int| 0 <= j < i ==> args@[j + 1]@ == #[trigger] forwarded@[j]@,
        decreases forwarded.len() - i,
    {
        args.push(forwarded[i].clone());
        i = i + 1;
    }
    let mut envs: Vec<(String, String)> = Vec::new();
    envs.push((String::from_str("RUSTC_WRAPPER"), self_exe));
    envs.push((String::from_str("RUSTFLAGS"), String::from_str(analysis_rustflags())));
    match toolchain {
        Some(t) => {
            envs.push((String::from_str("RUSTUP_TOOLCHAIN"), t));
        },
        None => {},
    }
    CommandPlan { program: cargo_program, args, envs }
}

/// The file name of the verifier executable beside the current one.
pub fn verifier_file_name(windows: bool) -> (r: &'static str)
    ensures
        windows ==> r@ == "pallet-verifier.exe"@,
        !windows ==> r@ == "pallet-verifier"@,
{
    if windows {
        "pallet-verifier.exe"
    } else {
        "pallet-verifier"
    }
}

/// The command that analyzes the primary package: the standalone verifier
/// with the caller's remaining arguments forwarded unchanged and no extra
/// environment.
pub fn build_verifier_command(verifier_path: String, forwarded: Vec<String>) -> (r: CommandPlan)
    ensures
        r.program@ == verifier_path@,
        r.args@.len() == forwarded@.len(),
        forall|i: int| 0 <= i < forwarded@.len() ==> r.args@[i]@ == #[trigger] forwarded@[i]@,
        r.envs@.len() == 0,
{
    let mut args: Vec<String> = Vec::new();
    let mut i: usize = 0;
    while i < forwarded.len()
        invariant
            i <= forwarded.len(),
            args@.len() == i,
            forall|j: int| 0 <= j < i ==> args@[j]@ == #[trigger] forwarded@[j]@,
        decreases forwarded.len() - i,
    {
        args.push(forwarded[i].clone());
        i = i + 1;
    }
    CommandPlan { program: verifier_path, args, envs: Vec::new() }
}

} // verus!
