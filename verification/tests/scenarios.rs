use system_update::detect::detect_distro;
use system_update::workflow::{plan_update, Family};

#[test]
fn arch_release_file_runs_pacman_once() {
    let id = detect_distro(Some("ID=arch\n"), false, false, false).expect("detects arch");
    assert_eq!(id, "arch");
    let mut run = plan_update(&id).expect("arch is supported");
    assert_eq!(run.family(), Family::Pacman);
    let cmd = run.next_command().expect("exactly one command");
    assert_eq!(cmd.program, "pacman");
    assert_eq!(cmd.args, vec!["-Syu", "--noconfirm"]);
    run.record_outcome(true);
    assert!(run.next_command().is_none());
    assert_eq!(run.verdict(), Some(true));
}

#[test]
fn arch_pacman_failure_fails_run() {
    let id = detect_distro(Some("ID=arch\n"), false, false, false).expect("detects arch");
    let mut run = plan_update(&id).expect("arch is supported");
    let cmd = run.next_command().expect("exactly one command");
    assert_eq!(cmd.program, "pacman");
    run.record_outcome(false);
    assert!(run.next_command().is_none());
    assert_eq!(run.verdict(), Some(false));
}

#[test]
fn alpine_quoted_runs_apk_update_then_upgrade() {
    let id = detect_distro(Some("ID=\"alpine\""), false, false, false).expect("detects alpine");
    assert_eq!(id, "alpine");
    let mut run = plan_update(&id).expect("alpine is supported");
    assert_eq!(run.family(), Family::Apk);
    let first = run.next_command().expect("apk update comes first");
    assert_eq!(first.program, "apk");
    assert_eq!(first.args, vec!["update"]);
    run.record_outcome(true);
    let second = run.next_command().expect("apk upgrade follows");
    assert_eq!(second.program, "apk");
    assert_eq!(second.args, vec!["upgrade"]);
    run.record_outcome(true);
    assert!(run.next_command().is_none());
    assert_eq!(run.verdict(), Some(true));
}

#[test]
fn alpine_failed_update_skips_upgrade() {
    let id = detect_distro(Some("ID=\"alpine\""), false, false, false).expect("detects alpine");
    let mut run = plan_update(&id).expect("alpine is supported");
    let first = run.next_command().expect("apk update comes first");
    assert_eq!(first.args, vec!["update"]);
    run.record_outcome(false);
    assert!(run.next_command().is_none());
    assert_eq!(run.verdict(), Some(false));
}
