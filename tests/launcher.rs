use warp_runner::launch::{
    normalizes_permissions, plan_launch, resolve_exit_code, build_args, program, EXEC_PATH_VAR, ABNORMAL_EXIT_CODE,
};
use warp_runner::path::file_extension;
use warp_runner::permissions::{add_exec_permission, ensure_executable};
use warp_runner::strategy::{is_script, is_vbs, select_strategy, Platform, Strategy};

fn strings(v: &[&str]) -> Vec<String> {
    v.iter().map(|s| s.to_string()).collect()
}

#[test]
fn batch_script_runs_through_shell() {
    let plan = plan_launch("run.BAT", &strings(&["x", "y"]), "/opt/launcher", Platform::Windows);
    assert_eq!(plan.strategy, Strategy::CommandShellScript);
    assert_eq!(plan.program, "cmd");
    assert_eq!(plan.args, strings(&["/c", "run.BAT", "x", "y"]));
    assert!(!plan.normalize_permissions);
}

#[test]
fn vbs_file_runs_through_script_host() {
    let plan = plan_launch("tool.vbs", &Vec::new(), "C:\\launcher.exe", Platform::Windows);
    assert_eq!(plan.strategy, Strategy::ScriptHostScript);
    assert_eq!(plan.program, "wscript");
    assert_eq!(plan.args, strings(&["/nologo", "tool.vbs"]));
}

#[test]
fn posix_payload_is_normalized_and_run_directly() {
    assert_eq!(ensure_executable(0o644), 0o754);
    let plan = plan_launch("payload", &strings(&["a", "b"]), "/usr/bin/runner", Platform::Posix);
    assert_eq!(plan.strategy, Strategy::DirectExec);
    assert_eq!(plan.program, "payload");
    assert_eq!(plan.args, strings(&["a", "b"]));
    assert!(plan.normalize_permissions);
    assert!(normalizes_permissions(Platform::Posix));
    assert!(!normalizes_permissions(Platform::Windows));
}

#[test]
fn windows_exe_runs_directly() {
    let plan = plan_launch("app.exe", &strings(&["--flag", "v"]), "C:\\l.exe", Platform::Windows);
    assert_eq!(plan.strategy, Strategy::DirectExec);
    assert_eq!(plan.program, "app.exe");
    assert_eq!(plan.args, strings(&["--flag", "v"]));
}

#[test]
fn every_casing_of_batch_extensions_is_a_script() {
    for ext in ["bat", "BAT", "Bat", "bAt", "baT", "cmd", "CMD", "CmD", "cMd"] {
        let target = format!("dir\\script.{}", ext);
        assert!(is_script(&target), "{}", target);
        assert!(!is_vbs(&target), "{}", target);
        assert_eq!(select_strategy(&target, Platform::Windows), Strategy::CommandShellScript);
        let args = build_args(Strategy::CommandShellScript, &target, &strings(&["1", "2"]));
        assert_eq!(args, vec!["/c".to_string(), target.clone(), "1".to_string(), "2".to_string()]);
    }
}

#[test]
fn every_casing_of_vbs_is_a_script_host_file() {
    for ext in ["vbs", "VBS", "Vbs", "vBs", "vbS"] {
        let target = format!("C:/tools/run.{}", ext);
        assert!(is_vbs(&target), "{}", target);
        assert!(!is_script(&target), "{}", target);
        assert_eq!(select_strategy(&target, Platform::Windows), Strategy::ScriptHostScript);
    }
}

#[test]
fn other_extensions_run_directly() {
    for target in ["app.exe", "noext", "archive.tar.gz", "x.bats", "x.ba", ".bat", "dir.bat\\", "", "a.vbs.txt"] {
        let expected = if target == "dir.bat\\" {
            Strategy::CommandShellScript
        } else {
            Strategy::DirectExec
        };
        assert_eq!(select_strategy(target, Platform::Windows), expected, "{}", target);
    }
}

#[test]
fn posix_never_routes_through_a_host() {
    for target in ["run.bat", "tool.VBS", "a.cmd", "plain"] {
        assert_eq!(select_strategy(target, Platform::Posix), Strategy::DirectExec);
        assert_eq!(program(Strategy::DirectExec, target), target);
    }
}

#[test]
fn extension_follows_the_last_dot_of_the_file_name() {
    assert_eq!(file_extension("a/b.txt"), Some("txt".to_string()));
    assert_eq!(file_extension("a\\b.tar.gz"), Some("gz".to_string()));
    assert_eq!(file_extension("dir.d/file"), None);
    assert_eq!(file_extension(".hidden"), None);
    assert_eq!(file_extension("name."), Some(String::new()));
    assert_eq!(file_extension("x.bat//"), Some("bat".to_string()));
    assert_eq!(file_extension(""), None);
    assert_eq!(file_extension("ünï.cödé"), Some("cödé".to_string()));
}

#[test]
fn permission_normalization_is_idempotent() {
    for mode in [0o644u32, 0o600, 0o755, 0o777, 0o000, 0o100644, 0o4711] {
        let once = ensure_executable(mode);
        assert_eq!(ensure_executable(once), once);
    }
}

#[test]
fn permission_normalization_keeps_other_exec_bit() {
    assert_eq!(ensure_executable(0o644) & 1, 0);
    assert_eq!(ensure_executable(0o645) & 1, 1);
    assert_eq!(ensure_executable(0o001), 0o111);
    assert_eq!(ensure_executable(0o100600), 0o100710);
}

#[test]
fn add_exec_permission_sets_selected_bits() {
    assert_eq!(add_exec_permission(0o600, true, false, false), 0o700);
    assert_eq!(add_exec_permission(0o640, false, true, false), 0o650);
    assert_eq!(add_exec_permission(0o644, false, false, true), 0o645);
    assert_eq!(add_exec_permission(0o644, false, false, false), 0o644);
    assert_eq!(add_exec_permission(0o644, true, true, true), 0o755);
}

#[test]
fn exit_code_is_relayed_verbatim() {
    for code in [0, 1, 2, 42, 255, -1, i32::MIN, i32::MAX] {
        assert_eq!(resolve_exit_code(Some(code)), code);
    }
}

#[test]
fn abnormal_termination_relays_one() {
    assert_eq!(resolve_exit_code(None), 1);
    assert_eq!(ABNORMAL_EXIT_CODE, 1);
}

#[test]
fn launcher_path_is_injected() {
    let plan = plan_launch("payload", &Vec::new(), "/usr/local/bin/warp", Platform::Posix);
    assert_eq!(plan.env_name, EXEC_PATH_VAR);
    assert_eq!(plan.env_name, "WARP_EXEC_PATH");
    assert_eq!(plan.env_value, "/usr/local/bin/warp");
}

#[test]
fn trailing_current_dir_component_is_skipped() {
    assert!(is_script("run.bat/."));
    assert!(is_vbs("tool.vbs/."));
    assert_eq!(file_extension("run.bat/."), Some("bat".to_string()));
    assert_eq!(file_extension("dir\\.\\x.CMD\\.\\"), Some("CMD".to_string()));
    let plan = plan_launch("run.bat/.", &strings(&["x"]), "C:\\l.exe", Platform::Windows);
    assert_eq!(plan.strategy, Strategy::CommandShellScript);
    assert_eq!(plan.program, "cmd");
    assert_eq!(plan.args, strings(&["/c", "run.bat/.", "x"]));
    let plan = plan_launch("tool.vbs/.", &Vec::new(), "C:\\l.exe", Platform::Windows);
    assert_eq!(plan.strategy, Strategy::ScriptHostScript);
    assert_eq!(plan.program, "wscript");
}

#[test]
fn drive_prefix_is_not_part_of_the_file_name() {
    assert!(!is_script("C:.bat"));
    assert!(!is_vbs("C:.vbs"));
    assert_eq!(file_extension("C:.bat"), None);
    assert_eq!(select_strategy("C:.bat", Platform::Windows), Strategy::DirectExec);
    let plan = plan_launch("C:.bat", &strings(&["a"]), "C:\\l.exe", Platform::Windows);
    assert_eq!(plan.program, "C:.bat");
    assert_eq!(plan.args, strings(&["a"]));
    assert!(is_script("C:run.bat"));
    assert!(is_script("c:\\scripts\\run.Cmd"));
}

#[test]
fn parent_dir_and_bare_prefixes_have_no_extension() {
    assert_eq!(file_extension("a/.."), None);
    assert_eq!(file_extension("run.bat/.."), None);
    assert_eq!(file_extension("."), None);
    assert_eq!(file_extension("C:"), None);
    assert_eq!(file_extension("\\\\server\\share"), None);
    assert_eq!(file_extension("\\\\.\\COM1"), None);
    assert_eq!(file_extension("\\\\?\\C:"), None);
}

#[test]
fn unc_and_verbatim_paths() {
    assert!(is_script("\\\\server\\share\\run.bat"));
    assert!(is_vbs("//server/share/tool.VBS"));
    assert_eq!(file_extension("\\\\server.bat\\share.cmd"), None);
    assert!(is_script("\\\\?\\C:\\dir\\run.bat"));
    assert!(is_script("\\\\?\\UNC\\server\\share\\run.bat"));
    // after a verbatim prefix `/` separates nothing and `.` is a component
    assert_eq!(file_extension("\\\\?\\C:\\dir/run.bat"), Some("bat".to_string()));
    assert_eq!(file_extension("\\\\?\\C:\\run.bat\\."), None);
}
