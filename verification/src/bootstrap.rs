//! Preparation of the environment store before task execution: well-known
//! variables derived from crate, version-control and toolchain metadata, the
//! run's own bookkeeping variables, and finally the user-declared entries.
//!
//! The probes that gather the metadata (reading the manifest, asking the
//! version-control tool, running the compiler) live outside this crate; this
//! module consumes their reports as plain records.

use vstd::prelude::*;

use crate::envmap::env_map_entries;
use crate::envstate::{env_set, EnvState};
use crate::setenv::{apply_env_entries, initialize_env};
use crate::strutil::{
    chars_to_string, join_chars, join_seq, lemma_str_views, replace_chars, replace_seq,
    str_to_chars, str_views, views_of,
};
use crate::types::{
    CliArgs, Config, CrateInfo, EnvInfo, GitInfo, PackageInfo, RustChannel, RustInfo,
    ScriptOutput,
};

verus! {

/// The store with `key` bound to the value, when one is present.
pub open spec fn set_opt(
    es: Seq<(Seq<char>, Seq<char>)>,
    key: Seq<char>,
    value: Option<String>,
) -> Seq<(Seq<char>, Seq<char>)> {
    match value {
        Some(s) => env_set(es, key, s@),
        None => es,
    }
}

/// Binds `key` to the value when one is present; otherwise leaves the store
/// alone.
fn set_opt_var(ctx: &mut EnvState, key: &str, value: &Option<String>)
    requires
        old(ctx).wf(),
    ensures
        final(ctx).wf(),
        final(ctx).entries() == set_opt(old(ctx).entries(), key@, *value),
{
    match value {
        Some(s) => ctx.set(key, s.as_str()),
        None => {},
    }
}

/// `TRUE` or `FALSE`, as the well-known flag variables spell it.
pub open spec fn flag_value(b: bool) -> Seq<char> {
    if b {
        "TRUE"@
    } else {
        "FALSE"@
    }
}

fn flag_str(b: bool) -> (r: &'static str)
    ensures
        r@ == flag_value(b),
{
    if b {
        "TRUE"
    } else {
        "FALSE"
    }
}

/// The workspace member names reported by the crate probe, or none.
pub open spec fn members_of(info: CrateInfo) -> Seq<Seq<char>> {
    match info.workspace {
        Some(w) => match w.members {
            Some(m) => str_views(m@),
            None => Seq::<Seq<char>>::empty(),
        },
        None => Seq::<Seq<char>>::empty(),
    }
}

/// Whether the crate probe reports dependencies: a present dependency list
/// counts by its length, an absent one by workspace membership.
pub open spec fn has_dependencies(info: CrateInfo) -> bool {
    match info.dependencies {
        Some(d) => d.len() > 0,
        None => info.workspace is Some,
    }
}

/// The store after the crate metadata variables are written: package fields
/// when present, the dependency and workspace flags, the comma-joined member
/// list, and the lock-file flag.
pub open spec fn crate_env_spec(
    es: Seq<(Seq<char>, Seq<char>)>,
    info: CrateInfo,
    lock_file_exists: bool,
) -> Seq<(Seq<char>, Seq<char>)> {
    let pkg = match info.package {
        Some(p) => p,
        None => PackageInfo {
            name: None,
            version: None,
            description: None,
            license: None,
            documentation: None,
            homepage: None,
            repository: None,
        },
    };
    let e1 = match pkg.name {
        Some(n) => env_set(
            env_set(es, "CARGO_MAKE_CRATE_NAME"@, n@),
            "CARGO_MAKE_CRATE_FS_NAME"@,
            replace_seq(n@, seq!['-'], seq!['_']),
        ),
        None => es,
    };
    let e2 = set_opt(e1, "CARGO_MAKE_CRATE_VERSION"@, pkg.version);
    let e3 = set_opt(e2, "CARGO_MAKE_CRATE_DESCRIPTION"@, pkg.description);
    let e4 = set_opt(e3, "CARGO_MAKE_CRATE_LICENSE"@, pkg.license);
    let e5 = set_opt(e4, "CARGO_MAKE_CRATE_DOCUMENTATION"@, pkg.documentation);
    let e6 = set_opt(e5, "CARGO_MAKE_CRATE_HOMEPAGE"@, pkg.homepage);
    let e7 = set_opt(e6, "CARGO_MAKE_CRATE_REPOSITORY"@, pkg.repository);
    let e8 = env_set(
        e7,
        "CARGO_MAKE_CRATE_HAS_DEPENDENCIES"@,
        flag_value(has_dependencies(info)),
    );
    let e9 = env_set(e8, "CARGO_MAKE_CRATE_IS_WORKSPACE"@, flag_value(info.workspace is Some));
    let e10 = env_set(e9, "CARGO_MAKE_CRATE_WORKSPACE_MEMBERS"@, join_seq(members_of(info), ','));
    env_set(e10, "CARGO_MAKE_CRATE_LOCK_FILE_EXISTS"@, flag_value(lock_file_exists))
}

/// Writes the crate metadata variables derived from what the crate probe
/// reported and whether a lock file is present in the working directory.
pub fn setup_env_for_crate(ctx: &mut EnvState, info: &CrateInfo, lock_file_exists: bool)
    requires
        old(ctx).wf(),
    ensures
        final(ctx).wf(),
        final(ctx).entries() == crate_env_spec(old(ctx).entries(), *info, lock_file_exists),
{
    broadcast use lemma_str_views;

    let default_pkg = PackageInfo::new();
    let pkg: &PackageInfo = match &info.package {
        Some(p) => p,
        None => &default_pkg,
    };
    match &pkg.name {
        Some(n) => {
            ctx.set("CARGO_MAKE_CRATE_NAME", n.as_str());
            let chars = str_to_chars(n.as_str());
            let dash = vec!['-'];
            let underscore = vec!['_'];
            let fs_chars = replace_chars(&chars, &dash, &underscore);
            let fs_name = chars_to_string(&fs_chars);
            proof {
                assert(dash@ =~= seq!['-']);
                assert(underscore@ =~= seq!['_']);
            }
            ctx.set("CARGO_MAKE_CRATE_FS_NAME", fs_name.as_str());
        },
        None => {},
    }
    set_opt_var(ctx, "CARGO_MAKE_CRATE_VERSION", &pkg.version);
    set_opt_var(ctx, "CARGO_MAKE_CRATE_DESCRIPTION", &pkg.description);
    set_opt_var(ctx, "CARGO_MAKE_CRATE_LICENSE", &pkg.license);
    set_opt_var(ctx, "CARGO_MAKE_CRATE_DOCUMENTATION", &pkg.documentation);
    set_opt_var(ctx, "CARGO_MAKE_CRATE_HOMEPAGE", &pkg.homepage);
    set_opt_var(ctx, "CARGO_MAKE_CRATE_REPOSITORY", &pkg.repository);
    let has_deps = match &info.dependencies {
        Some(d) => d.len() > 0,
        None => info.workspace.is_some(),
    };
    ctx.set("CARGO_MAKE_CRATE_HAS_DEPENDENCIES", flag_str(has_deps));
    ctx.set("CARGO_MAKE_CRATE_IS_WORKSPACE", flag_str(info.workspace.is_some()));
    let members_string = match &info.workspace {
        Some(w) => match &w.members {
            Some(m) => join_strings(m, ','),
            None => String::new(),
        },
        None => String::new(),
    };
    proof {
        if members_of(*info).len() == 0 {
            assert(join_seq(members_of(*info), ',') =~= Seq::<char>::empty());
        }
    }
    ctx.set("CARGO_MAKE_CRATE_WORKSPACE_MEMBERS", members_string.as_str());
    ctx.set("CARGO_MAKE_CRATE_LOCK_FILE_EXISTS", flag_str(lock_file_exists));
}

/// Joins owned strings with `sep` between neighbours.
fn join_strings(parts: &Vec<String>, sep: char) -> (r: String)
    ensures
        r@ == join_seq(str_views(parts@), sep),
{
    broadcast use lemma_str_views;

    let n = parts.len();
    let mut pieces: Vec<Vec<char>> = Vec::new();
    let mut i: usize = 0;
    while i < n
        invariant
            i <= n,
            n == parts@.len(),
            views_of(pieces@) == str_views(parts@).take(i as int),
        decreases n - i,
    {
        let ghost prev = pieces@;
        pieces.push(str_to_chars(parts[i].as_str()));
        proof {
            crate::strutil::lemma_views_push(prev, pieces@.last());
            assert(views_of(pieces@) =~~= str_views(parts@).take(i + 1));
        }
        i += 1;
    }
    proof {
        assert(str_views(parts@).take(n as int) =~~= str_views(parts@));
    }
    let joined = join_chars(&pieces, sep);
    chars_to_string(&joined)
}

/// The store after the version-control variables are written: branch, user
/// name and user email, each when the probe reported one.
pub open spec fn git_env_spec(
    es: Seq<(Seq<char>, Seq<char>)>,
    info: GitInfo,
) -> Seq<(Seq<char>, Seq<char>)> {
    let e1 = set_opt(es, "CARGO_MAKE_GIT_BRANCH"@, info.branch);
    let e2 = set_opt(e1, "CARGO_MAKE_GIT_USER_NAME"@, info.user_name);
    set_opt(e2, "CARGO_MAKE_GIT_USER_EMAIL"@, info.user_email)
}

/// Writes the version-control variables derived from what the probe
/// reported.
pub fn setup_env_for_git_repo(ctx: &mut EnvState, info: &GitInfo)
    requires
        old(ctx).wf(),
    ensures
        final(ctx).wf(),
        final(ctx).entries() == git_env_spec(old(ctx).entries(), *info),
{
    set_opt_var(ctx, "CARGO_MAKE_GIT_BRANCH", &info.branch);
    set_opt_var(ctx, "CARGO_MAKE_GIT_USER_NAME", &info.user_name);
    set_opt_var(ctx, "CARGO_MAKE_GIT_USER_EMAIL", &info.user_email);
}

/// The name of a toolchain release channel.
pub open spec fn channel_name(c: RustChannel) -> Seq<char> {
    match c {
        RustChannel::Stable => "stable"@,
        RustChannel::Beta => "beta"@,
        RustChannel::Nightly => "nightly"@,
    }
}

/// A target component reported by the toolchain probe, or `unknown`.
pub open spec fn or_unknown(v: Option<String>) -> Seq<char> {
    match v {
        Some(s) => s@,
        None => "unknown"@,
    }
}

fn or_unknown_str(v: &Option<String>) -> (r: &str)
    ensures
        r@ == or_unknown(*v),
{
    match v {
        Some(s) => s.as_str(),
        None => "unknown",
    }
}

/// The store after the toolchain variables are written: the version and
/// channel when reported, and the five target components, `unknown` where
/// the probe reported none.
pub open spec fn rust_env_spec(
    es: Seq<(Seq<char>, Seq<char>)>,
    info: RustInfo,
) -> Seq<(Seq<char>, Seq<char>)> {
    let e1 = set_opt(es, "CARGO_MAKE_RUST_VERSION"@, info.version);
    let e2 = match info.channel {
        Some(c) => env_set(e1, "CARGO_MAKE_RUST_CHANNEL"@, channel_name(c)),
        None => e1,
    };
    let e3 = env_set(e2, "CARGO_MAKE_RUST_TARGET_ARCH"@, or_unknown(info.target_arch));
    let e4 = env_set(e3, "CARGO_MAKE_RUST_TARGET_ENV"@, or_unknown(info.target_env));
    let e5 = env_set(e4, "CARGO_MAKE_RUST_TARGET_OS"@, or_unknown(info.target_os));
    let e6 = env_set(
        e5,
        "CARGO_MAKE_RUST_TARGET_POINTER_WIDTH"@,
        or_unknown(info.target_pointer_width),
    );
    env_set(e6, "CARGO_MAKE_RUST_TARGET_VENDOR"@, or_unknown(info.target_vendor))
}

/// Writes the toolchain variables derived from what the probe reported.
pub fn setup_env_for_rust(ctx: &mut EnvState, info: &RustInfo)
    requires
        old(ctx).wf(),
    ensures
        final(ctx).wf(),
        final(ctx).entries() == rust_env_spec(old(ctx).entries(), *info),
{
    set_opt_var(ctx, "CARGO_MAKE_RUST_VERSION", &info.version);
    match &info.channel {
        Some(c) => {
            let name: &str = match c {
                RustChannel::Stable => "stable",
                RustChannel::Beta => "beta",
                RustChannel::Nightly => "nightly",
            };
            ctx.set("CARGO_MAKE_RUST_CHANNEL", name);
        },
        None => {},
    }
    ctx.set("CARGO_MAKE_RUST_TARGET_ARCH", or_unknown_str(&info.target_arch));
    ctx.set("CARGO_MAKE_RUST_TARGET_ENV", or_unknown_str(&info.target_env));
    ctx.set("CARGO_MAKE_RUST_TARGET_OS", or_unknown_str(&info.target_os));
    ctx.set(
        "CARGO_MAKE_RUST_TARGET_POINTER_WIDTH",
        or_unknown_str(&info.target_pointer_width),
    );
    ctx.set("CARGO_MAKE_RUST_TARGET_VENDOR", or_unknown_str(&info.target_vendor));
}

/// The raw semicolon-joined positional argument string of a run.
pub open spec fn task_args_string(arguments: Option<Vec<String>>) -> Seq<char> {
    match arguments {
        Some(a) => if a.len() == 0 {
            Seq::<char>::empty()
        } else {
            join_seq(str_views(a@), ';')
        },
        None => Seq::<char>::empty(),
    }
}

/// The store after the whole bootstrap: the run bookkeeping variables, the
/// crate, version-control and toolchain variables, then the user-declared
/// entries in declaration order.
pub open spec fn setup_env_spec(
    es: Seq<(Seq<char>, Seq<char>)>,
    cli_args: CliArgs,
    task: Seq<char>,
    crate_info: CrateInfo,
    lock_file_exists: bool,
    git_info: GitInfo,
    rust_info: RustInfo,
    declared: Seq<(String, crate::types::EnvValue)>,
    outputs: Seq<Option<ScriptOutput>>,
) -> Seq<(Seq<char>, Seq<char>)> {
    let e1 = env_set(es, "CARGO_MAKE"@, "true"@);
    let e2 = env_set(e1, "CARGO_MAKE_TASK"@, task);
    let e3 = env_set(e2, "CARGO_MAKE_COMMAND"@, cli_args.command@);
    let e4 = env_set(e3, "CARGO_MAKE_TASK_ARGS"@, task_args_string(cli_args.arguments));
    let e5 = crate_env_spec(e4, crate_info, lock_file_exists);
    let e6 = git_env_spec(e5, git_info);
    let e7 = rust_env_spec(e6, rust_info);
    apply_env_entries(e7, declared, outputs)
}

/// Prepares the environment store for one run: writes the bookkeeping
/// variables, the metadata the probes reported, and the configuration's
/// declared entries, and returns the gathered metadata.
pub fn setup_env(
    ctx: &mut EnvState,
    cli_args: &CliArgs,
    config: &Config,
    task: &str,
    crate_info: CrateInfo,
    lock_file_exists: bool,
    git_info: GitInfo,
    rust_info: RustInfo,
    script_outputs: &Vec<Option<ScriptOutput>>,
) -> (r: EnvInfo)
    requires
        old(ctx).wf(),
        script_outputs@.len() == env_map_entries(config.env).len(),
    ensures
        final(ctx).wf(),
        final(ctx).entries() == setup_env_spec(
            old(ctx).entries(),
            *cli_args,
            task@,
            crate_info,
            lock_file_exists,
            git_info,
            rust_info,
            env_map_entries(config.env),
            script_outputs@,
        ),
        r.crate_info == crate_info,
        r.git_info == git_info,
        r.rust_info == rust_info,
{
    ctx.set("CARGO_MAKE", "true");
    ctx.set("CARGO_MAKE_TASK", task);
    ctx.set("CARGO_MAKE_COMMAND", cli_args.command.as_str());
    let task_arguments = match &cli_args.arguments {
        Some(args) => if args.len() == 0 {
            String::new()
        } else {
            join_strings(args, ';')
        },
        None => String::new(),
    };
    ctx.set("CARGO_MAKE_TASK_ARGS", task_arguments.as_str());
    setup_env_for_crate(ctx, &crate_info, lock_file_exists);
    setup_env_for_git_repo(ctx, &git_info);
    setup_env_for_rust(ctx, &rust_info);
    initialize_env(ctx, config, script_outputs);
    EnvInfo { rust_info, crate_info, git_info }
}

} // verus!
