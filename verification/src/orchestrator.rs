use vstd::prelude::*;

use crate::resolve::{Config, FsEntry};
use crate::sources::{get_source_files_in_dir, join_path, path_join, source_paths, views_of_strings};
use crate::Error;

verus! {

/// What the toolchain driver resolved: the compiler's path, the base
/// arguments it needs for the host target, and whether it is a
/// Microsoft-style driver.
#[derive(Debug, PartialEq, Eq, Clone)]
pub struct ToolDesc {
    pub path: String,
    pub args: Vec<String>,
    pub is_msvc: bool,
}

/// A command ready to be spawned: the program, its arguments in order,
/// and the working directory it is to run in, when one is imposed.
#[derive(Debug, PartialEq, Eq, Clone)]
pub struct CommandDesc {
    pub program: String,
    pub args: Vec<String>,
    pub cwd: Option<String>,
}

/// Everything a build needs beyond the compiler invocation itself: the
/// artifact directory to create, the tool that was resolved, and the
/// compiler command to run inside that directory.
#[derive(Debug, PartialEq, Eq, Clone)]
pub struct BuildPlan {
    pub tool: ToolDesc,
    pub artifacts_dir: String,
    pub command: CommandDesc,
}

/// What `clean` is to do: remove the artifact directory, or nothing
/// when there is no such directory.
#[derive(Debug, PartialEq, Eq, Structural)]
pub enum CleanAction {
    RemoveArtifacts,
    Nothing,
}

/// The output-naming arguments handed to the compiler: the
/// Microsoft-style driver takes `/Fe:` with the `.exe` name, every
/// other driver takes `-o` with the bare name.
pub open spec fn output_args(is_msvc: bool, name: Seq<char>) -> Seq<Seq<char>> {
    if is_msvc {
        seq!["/Fe:"@, name + ".exe"@]
    } else {
        seq!["-o"@, name]
    }
}

/// The artifact's file name: the package name, with the `.exe`
/// extension on the Microsoft-style platform.
pub open spec fn artifact_name(name: Seq<char>, windows: bool) -> Seq<char> {
    if windows {
        name + ".exe"@
    } else {
        name
    }
}

/// Appends clones of all the strings of `src` to `dst`, keeping order.
fn append_strings(dst: &mut Vec<String>, src: &Vec<String>)
    ensures
        views_of_strings(final(dst)@) == views_of_strings(old(dst)@) + views_of_strings(src@),
{
    let mut i: usize = 0;
    while i < src.len()
        invariant
            i <= src@.len(),
            views_of_strings(dst@) == views_of_strings(old(dst)@) + views_of_strings(
                src@.take(i as int),
            ),
        decreases src@.len() - i,
    {
        let ghost d0 = dst@;
        dst.push(src[i].clone());
        proof {
            assert(views_of_strings(dst@) =~= views_of_strings(d0).push(src@[i as int]@));
            assert(views_of_strings(src@.take(i + 1int)) =~= views_of_strings(
                src@.take(i as int),
            ).push(src@[i as int]@));
            assert(views_of_strings(dst@) =~= views_of_strings(old(dst)@) + views_of_strings(
                src@.take(i + 1int),
            ));
        }
        i += 1;
    }
    proof {
        assert(src@.take(src@.len() as int) =~= src@);
    }
}

/// Builds the compiler invocation for a resolved tool: the tool's own
/// arguments first, then the output-naming arguments for the package
/// name, then every collected source path in order, to be run inside
/// the artifact directory so that relative output lands there.
pub fn build_command(
    tool: &ToolDesc,
    name: &String,
    sources: &Vec<String>,
    artifacts_dir: &String,
) -> (r: CommandDesc)
    ensures
        r.program@ == tool.path@,
        views_of_strings(r.args@) == views_of_strings(tool.args@) + output_args(
            tool.is_msvc,
            name@,
        ) + views_of_strings(sources@),
        r.cwd matches Some(c) && c@ == artifacts_dir@,
{
    let mut args: Vec<String> = Vec::new();
    append_strings(&mut args, &tool.args);
    let ghost base = views_of_strings(args@);
    if tool.is_msvc {
        args.push(String::from_str("/Fe:"));
        let mut out = name.clone();
        out.append(".exe");
        args.push(out);
        proof {
            assert(views_of_strings(args@) =~= base + output_args(true, name@));
        }
    } else {
        args.push(String::from_str("-o"));
        args.push(name.clone());
        proof {
            assert(views_of_strings(args@) =~= base + output_args(false, name@));
        }
    }
    append_strings(&mut args, sources);
    proof {
        assert(views_of_strings(args@) =~= views_of_strings(tool.args@) + output_args(
            tool.is_msvc,
            name@,
        ) + views_of_strings(sources@));
    }
    CommandDesc { program: tool.path.clone(), args, cwd: Some(artifacts_dir.clone()) }
}

/// Relies on cc's `Build::try_get_compiler`: resolves the host C
/// compiler for the given target triple, configured at the lowest
/// optimization level, with the headers directory on the compiler's
/// search path (a `-I` flag, which both driver families accept),
/// building neither a shared nor a static library, and with cargo
/// metadata emission off. What is resolved depends on the environment,
/// so nothing is promised of the outcome; `None` stands for cc finding
/// no usable compiler. The tool's path, its base arguments and its
/// family come back as plain values, through `Tool::path`,
/// `Tool::args` and `Tool::is_like_msvc`.
#[verifier::external_body]
fn resolve_toolchain(target: &str, headers_dir: &str) -> (r: Option<ToolDesc>) {
    let tool = cc::Build::new()
        .opt_level(1)
        .target(target)
        .host(target)
        .flag(format!("-I{}", headers_dir))
        .shared_flag(false)
        .static_flag(false)
        .cargo_metadata(false)
        .try_get_compiler()
        .ok()?;
    let path = tool.path().to_string_lossy().into_owned();
    let args = tool.args().iter().map(|a| a.to_string_lossy().into_owned()).collect();
    Some(ToolDesc { path, args, is_msvc: tool.is_like_msvc() })
}

/// The project's source directory, directly under the root.
pub fn source_dir_path(config: &Config) -> (r: String)
    ensures
        r@ == path_join(config.root@, "src"@),
{
    join_path(config.root.as_str(), "src")
}

/// The project's artifact directory, directly under the root.
pub fn artifacts_dir_path(config: &Config) -> (r: String)
    ensures
        r@ == path_join(config.root@, "artifacts"@),
{
    join_path(config.root.as_str(), "artifacts")
}

/// Whether a command built by `plan_build` matches a tool: it invokes
/// that tool on the given sources with the right output naming, inside
/// the artifact directory.
pub open spec fn command_matches(
    c: CommandDesc,
    tool: ToolDesc,
    name: Seq<char>,
    sources: Seq<Seq<char>>,
    artifacts_dir: Seq<char>,
) -> bool {
    &&& c.program@ == tool.path@
    &&& views_of_strings(c.args@) == views_of_strings(tool.args@) + output_args(
        tool.is_msvc,
        name,
    ) + sources
    &&& c.cwd matches Some(d) && d@ == artifacts_dir
}

/// Plans a build from the resolved configuration and the listing of
/// the source directory: resolves the toolchain with the headers
/// directory on its search path, and lays the compiler invocation out
/// for whichever tool came back. Only the toolchain driver finding no
/// compiler fails the planning.
pub fn plan_build(config: &Config, src_entries: &Vec<FsEntry>, target: &str) -> (r: Result<
    BuildPlan,
    Error,
>)
    ensures
        match r {
            Ok(plan) => {
                &&& plan.artifacts_dir@ == path_join(config.root@, "artifacts"@)
                &&& command_matches(
                    plan.command,
                    plan.tool,
                    config.manifest.package.name@,
                    source_paths(path_join(config.root@, "src"@), src_entries@),
                    path_join(config.root@, "artifacts"@),
                )
            },
            Err(e) => e matches Error::Other(m) && m@ == "could not resolve a C compiler"@,
        },
{
    let src_dir = source_dir_path(config);
    let headers = join_path(src_dir.as_str(), "headers");
    let artifacts = artifacts_dir_path(config);
    let sources = get_source_files_in_dir(src_dir.as_str(), src_entries);
    match resolve_toolchain(target, headers.as_str()) {
        Some(tool) => {
            let command = build_command(&tool, &config.manifest.package.name, &sources, &artifacts);
            Ok(BuildPlan { tool, artifacts_dir: artifacts, command })
        },
        None => Err(Error::Other(String::from_str("could not resolve a C compiler"))),
    }
}

/// Decides what `run` does once its build has finished: when the build
/// failed, nothing is executed and the composed failure is the
/// operation's error; when it succeeded, the artifact under the
/// project's artifact directory is executed with the caller's
/// arguments passed through verbatim.
pub fn run_command_after_build(
    build_succeeded: bool,
    config: &Config,
    windows: bool,
    args: &Vec<String>,
) -> (r: Result<CommandDesc, Error>)
    ensures
        !build_succeeded ==> (r matches Err(e) && e matches Error::Other(m) && m@
            == "compilation failure; cannot execute program"@),
        build_succeeded ==> (r matches Ok(c) && c.program@ == path_join(
            path_join(config.root@, "artifacts"@),
            artifact_name(config.manifest.package.name@, windows),
        ) && views_of_strings(c.args@) == views_of_strings(args@) && c.cwd is None),
{
    if !build_succeeded {
        return Err(Error::Other(String::from_str("compilation failure; cannot execute program")));
    }
    let artifacts = artifacts_dir_path(config);
    let file_name = if windows {
        let mut n = config.manifest.package.name.clone();
        n.append(".exe");
        n
    } else {
        config.manifest.package.name.clone()
    };
    let program = join_path(artifacts.as_str(), file_name.as_str());
    let mut run_args: Vec<String> = Vec::new();
    append_strings(&mut run_args, args);
    proof {
        assert(views_of_strings(run_args@) =~= views_of_strings(args@));
    }
    Ok(CommandDesc { program, args: run_args, cwd: None })
}

/// Decides what `clean` does: the artifact directory is removed only
/// when it exists; when it does not, there is nothing to do, and that
/// is success, not an error. Cleaning twice is thus a no-op the second
/// time.
pub fn clean_action(artifacts_dir_exists: bool) -> (r: CleanAction)
    ensures
        r is RemoveArtifacts <==> artifacts_dir_exists,
{
    if artifacts_dir_exists {
        CleanAction::RemoveArtifacts
    } else {
        CleanAction::Nothing
    }
}

/// What `run` says about the executed program once it has finished:
/// nothing on success, and on failure a report that carries the exit
/// code when the program had one.
#[derive(Debug, PartialEq, Eq, Structural)]
pub enum ExitReport {
    Silent,
    FailureWithCode(i32),
    FailureWithoutCode,
}

/// Decides what `run` reports about the program it executed: a
/// non-zero exit is reported, with its code when there is one, and is
/// never escalated into an error of the tool itself.
pub fn exit_report(success: bool, code: Option<i32>) -> (r: ExitReport)
    ensures
        success ==> r is Silent,
        !success ==> match code {
            Some(c) => (r matches ExitReport::FailureWithCode(k) && k == c),
            None => r is FailureWithoutCode,
        },
{
    if success {
        ExitReport::Silent
    } else {
        match code {
            Some(c) => ExitReport::FailureWithCode(c),
            None => ExitReport::FailureWithoutCode,
        }
    }
}

/// The message reported for a finished compile, chosen by the
/// compiler's exit status.
pub fn build_status_message(success: bool) -> (r: String)
    ensures
        success ==> r@ == "compilation successful."@,
        !success ==> r@ == "compilation failed."@,
{
    if success {
        String::from_str("compilation successful.")
    } else {
        String::from_str("compilation failed.")
    }
}

} // verus!
