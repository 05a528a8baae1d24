use ocean::orchestrator::{
    artifacts_dir_path, build_command, build_status_message, clean_action, exit_report,
    plan_build, run_command_after_build, source_dir_path, CleanAction, ExitReport, ToolDesc,
};
use ocean::sources::{get_source_files_in_dir, join_path};
use ocean::{Config, FsEntry, Manifest, Package};

fn config(root: &str, name: &str) -> Config {
    Config {
        manifest: Manifest { package: Package { name: name.to_string() } },
        root: root.to_string(),
    }
}

fn file(name: &str) -> FsEntry {
    FsEntry { name: name.to_string(), is_file: true }
}

fn dir(name: &str) -> FsEntry {
    FsEntry { name: name.to_string(), is_file: false }
}

fn unix_tool() -> ToolDesc {
    ToolDesc {
        path: "/usr/bin/cc".to_string(),
        args: vec!["-O1".to_string()],
        is_msvc: false,
    }
}

fn msvc_tool() -> ToolDesc {
    ToolDesc {
        path: "cl.exe".to_string(),
        args: vec!["-nologo".to_string()],
        is_msvc: true,
    }
}

#[test]
fn join_path_uses_one_separator() {
    assert_eq!(join_path("/home/me", "foo"), "/home/me/foo");
}

#[test]
fn fixed_layout_paths() {
    let c = config("/p/foo", "foo");
    assert_eq!(source_dir_path(&c), "/p/foo/src");
    assert_eq!(artifacts_dir_path(&c), "/p/foo/artifacts");
}

#[test]
fn sources_keep_only_regular_files_in_order() {
    let entries = vec![file("main.c"), dir("headers"), file("util.c"), dir("notes")];
    let sources = get_source_files_in_dir("/p/foo/src", &entries);
    assert_eq!(sources, vec!["/p/foo/src/main.c".to_string(), "/p/foo/src/util.c".to_string()]);
}

#[test]
fn empty_source_directory_yields_no_sources() {
    let sources = get_source_files_in_dir("/p/foo/src", &vec![]);
    assert_eq!(sources, Vec::<String>::new());
}

#[test]
fn unix_command_names_output_with_dash_o() {
    let sources = vec!["/p/foo/src/main.c".to_string()];
    let cmd = build_command(&unix_tool(), &"foo".to_string(), &sources, &"/p/foo/artifacts".to_string());
    assert_eq!(cmd.program, "/usr/bin/cc");
    assert_eq!(cmd.args, vec!["-O1", "-o", "foo", "/p/foo/src/main.c"]);
    assert_eq!(cmd.cwd.as_deref(), Some("/p/foo/artifacts"));
}

#[test]
fn msvc_command_names_output_with_fe() {
    let sources = vec!["/p/foo/src/main.c".to_string()];
    let cmd = build_command(&msvc_tool(), &"foo".to_string(), &sources, &"/p/foo/artifacts".to_string());
    assert_eq!(cmd.program, "cl.exe");
    assert_eq!(cmd.args, vec!["-nologo", "/Fe:", "foo.exe", "/p/foo/src/main.c"]);
    assert_eq!(cmd.cwd.as_deref(), Some("/p/foo/artifacts"));
}

#[test]
fn empty_name_makes_empty_artifact_name() {
    let cmd = build_command(&unix_tool(), &"".to_string(), &vec![], &"/p/x/artifacts".to_string());
    assert_eq!(cmd.args, vec!["-O1", "-o", ""]);
    let c = config("/p/x", "");
    let run = run_command_after_build(true, &c, false, &vec![]).unwrap();
    assert_eq!(run.program, "/p/x/artifacts/");
}

#[test]
fn run_skips_execution_after_failed_build() {
    let c = config("/p/foo", "foo");
    let r = run_command_after_build(false, &c, false, &vec!["a".to_string()]);
    assert_eq!(
        r,
        Err(ocean::Error::Other("compilation failure; cannot execute program".to_string()))
    );
}

#[test]
fn run_passes_arguments_verbatim() {
    let c = config("/p/foo", "foo");
    let r = run_command_after_build(true, &c, false, &vec!["a".to_string(), "b".to_string()])
        .unwrap();
    assert_eq!(r.program, "/p/foo/artifacts/foo");
    assert_eq!(r.args, vec!["a", "b"]);
    assert_eq!(r.cwd, None);
}

#[test]
fn run_names_exe_artifact_on_windows() {
    let c = config("/p/foo", "foo");
    let r = run_command_after_build(true, &c, true, &vec![]).unwrap();
    assert_eq!(r.program, "/p/foo/artifacts/foo.exe");
}

#[test]
fn clean_is_a_noop_without_artifacts() {
    assert_eq!(clean_action(false), CleanAction::Nothing);
}

#[test]
fn clean_removes_existing_artifacts_then_rests() {
    assert_eq!(clean_action(true), CleanAction::RemoveArtifacts);
    assert_eq!(clean_action(false), CleanAction::Nothing);
}

#[test]
fn executed_program_failure_is_reported_not_escalated() {
    assert_eq!(exit_report(true, Some(0)), ExitReport::Silent);
    assert_eq!(exit_report(false, Some(3)), ExitReport::FailureWithCode(3));
    assert_eq!(exit_report(false, None), ExitReport::FailureWithoutCode);
}

#[test]
fn status_messages() {
    assert_eq!(build_status_message(true), "compilation successful.");
    assert_eq!(build_status_message(false), "compilation failed.");
}

#[test]
fn planned_build_uses_resolved_tool() {
    let c = config("/p/foo", "foo");
    let entries = vec![file("main.c"), dir("headers")];
    match plan_build(&c, &entries, "x86_64-unknown-linux-gnu") {
        Ok(plan) => {
            assert_eq!(plan.artifacts_dir, "/p/foo/artifacts");
            assert_eq!(plan.command.program, plan.tool.path);
            assert_eq!(plan.command.cwd.as_deref(), Some("/p/foo/artifacts"));
            let n = plan.command.args.len();
            assert_eq!(plan.command.args[n - 1], "/p/foo/src/main.c");
            if plan.tool.is_msvc {
                assert_eq!(plan.command.args[n - 3..n - 1], ["/Fe:", "foo.exe"]);
            } else {
                assert_eq!(plan.command.args[n - 3..n - 1], ["-o", "foo"]);
            }
        },
        Err(e) => {
            assert_eq!(e.message(), "error (could not resolve a C compiler)");
        },
    }
}
