use launchcore::launch::needs_elevation;
use launchcore::launch::AbortKind;
use launchcore::launch::LaunchAction;
use launchcore::launch::LaunchMachine;
use launchcore::launch::LaunchOutcome;
use launchcore::launch::LaunchPhase;
use launchcore::launch::ShortcutParse;
use launchcore::launch::SpawnStatus;
use launchcore::launch::ELEVATION_REQUIRED_OS_CODE;
use launchcore::shortcut::is_shortcut;

#[test]
fn classifies_shortcut_paths() {
    assert!(is_shortcut("C:\\Users\\u\\Desktop\\Tool.lnk"));
    assert!(is_shortcut("tool.lnk"));
    assert!(is_shortcut("a/b.lnk"));
    assert!(is_shortcut("archive.tar.lnk"));
    // Trailing separators do not change which component is the file name.
    assert!(is_shortcut("C:\\apps\\tool.lnk\\"));
    assert!(is_shortcut("a/b.lnk/"));
}

#[test]
fn boundary_token_is_fixed() {
    assert_eq!(launchcore::launch::completion_token(), "finish");
}

#[test]
fn classifies_plain_paths() {
    assert!(!is_shortcut("C:\\apps\\tool.exe"));
    assert!(!is_shortcut("noextension"));
    assert!(!is_shortcut(""));
    // The match is case-sensitive.
    assert!(!is_shortcut("C:\\apps\\Tool.LNK"));
    // A dot that opens the file name introduces no extension.
    assert!(!is_shortcut(".lnk"));
    assert!(!is_shortcut("C:\\apps\\.lnk"));
    // A trailing dot leaves an empty extension.
    assert!(!is_shortcut("tool."));
    // The shortcut extension must end the final component.
    assert!(!is_shortcut("dir.lnk/file"));
    assert!(!is_shortcut("tool.lnkx"));
    assert!(!is_shortcut("tool.alnk"));
}

#[test]
fn elevation_code_is_recognised() {
    assert_eq!(ELEVATION_REQUIRED_OS_CODE, 740);
    assert!(needs_elevation(740));
    assert!(!needs_elevation(2));
    assert!(!needs_elevation(0));
}

#[test]
fn plain_path_spawns_directly() {
    let (mut m, a) = LaunchMachine::start("C:\\apps\\tool.exe".to_string());
    assert_eq!(a, LaunchAction::Spawn);
    assert_eq!(m.resolved, "C:\\apps\\tool.exe");
    assert_eq!(m.input, "C:\\apps\\tool.exe");
    let a2 = m.on_spawn_ended(SpawnStatus::Spawned);
    assert_eq!(a2, LaunchAction::Report(LaunchOutcome::Started));
    assert_eq!(m.phase, LaunchPhase::Completed(LaunchOutcome::Started));
}

#[test]
fn shortcut_is_parsed_before_any_spawn() {
    let (m, a) = LaunchMachine::start("C:\\Users\\u\\Desktop\\Tool.lnk".to_string());
    assert_eq!(a, LaunchAction::ParseShortcut);
    assert_eq!(m.phase, LaunchPhase::AwaitingParse);
}

#[test]
fn parsed_base_path_becomes_the_spawned_target() {
    let (mut m, a) = LaunchMachine::start("C:\\Users\\u\\Desktop\\Tool.lnk".to_string());
    assert_eq!(a, LaunchAction::ParseShortcut);
    let a2 = m.on_shortcut_parsed(ShortcutParse::Target("D:\\Tool\\tool.exe".to_string()));
    assert_eq!(a2, LaunchAction::Spawn);
    assert_eq!(m.resolved, "D:\\Tool\\tool.exe");
    assert_eq!(m.input, "C:\\Users\\u\\Desktop\\Tool.lnk");
    let a3 = m.on_spawn_ended(SpawnStatus::Spawned);
    assert_eq!(a3, LaunchAction::Report(LaunchOutcome::Started));
}

#[test]
fn shortcut_without_base_path_spawns_the_input_unchanged() {
    let (mut m, _) = LaunchMachine::start("C:\\Users\\u\\Desktop\\Tool.lnk".to_string());
    let a = m.on_shortcut_parsed(ShortcutParse::NoTarget);
    assert_eq!(a, LaunchAction::Spawn);
    assert_eq!(m.resolved, "C:\\Users\\u\\Desktop\\Tool.lnk");
}

#[test]
fn malformed_shortcut_aborts_without_fallback() {
    let (mut m, _) = LaunchMachine::start("C:\\Users\\u\\Desktop\\Tool.lnk".to_string());
    let a = m.on_shortcut_parsed(ShortcutParse::Malformed);
    assert_eq!(a, LaunchAction::Abort(AbortKind::MalformedShortcut));
    assert_eq!(m.phase, LaunchPhase::Aborted(AbortKind::MalformedShortcut));
}

#[test]
fn elevation_code_triggers_one_elevated_retry() {
    let (mut m, a) = LaunchMachine::start("C:\\protected\\svc.exe".to_string());
    assert_eq!(a, LaunchAction::Spawn);
    let a2 = m.on_spawn_ended(SpawnStatus::FailedCode(740));
    assert_eq!(a2, LaunchAction::SpawnElevated);
    // The retry uses the same resolved path.
    assert_eq!(m.resolved, "C:\\protected\\svc.exe");
    assert_eq!(m.phase, LaunchPhase::AwaitingElevatedSpawn);
    let a3 = m.on_elevated_ended(SpawnStatus::Spawned);
    assert_eq!(a3, LaunchAction::Report(LaunchOutcome::StartedElevated));
    assert_eq!(m.phase, LaunchPhase::Completed(LaunchOutcome::StartedElevated));
}

#[test]
fn unrelated_failure_code_reports_failed_with_no_retry() {
    let (mut m, _) = LaunchMachine::start("C:\\apps\\missing.exe".to_string());
    // "file not found"
    let a = m.on_spawn_ended(SpawnStatus::FailedCode(2));
    assert_eq!(
        a,
        LaunchAction::Report(LaunchOutcome::Failed { os_code: Some(2) })
    );
    assert_eq!(
        m.phase,
        LaunchPhase::Completed(LaunchOutcome::Failed { os_code: Some(2) })
    );
}

#[test]
fn failure_without_code_reports_failed() {
    let (mut m, _) = LaunchMachine::start("C:\\apps\\odd.exe".to_string());
    let a = m.on_spawn_ended(SpawnStatus::FailedNoCode);
    assert_eq!(a, LaunchAction::Report(LaunchOutcome::Failed { os_code: None }));
}

#[test]
fn failed_elevated_retry_aborts() {
    let (mut m, _) = LaunchMachine::start("C:\\protected\\svc.exe".to_string());
    let a = m.on_spawn_ended(SpawnStatus::FailedCode(740));
    assert_eq!(a, LaunchAction::SpawnElevated);
    let a2 = m.on_elevated_ended(SpawnStatus::FailedCode(5));
    assert_eq!(a2, LaunchAction::Abort(AbortKind::ElevatedLaunchFailed));
    assert_eq!(m.phase, LaunchPhase::Aborted(AbortKind::ElevatedLaunchFailed));
}
