use system_update::workflow::{family_of, plan_update, steps_for, Family};

#[test]
fn apt_aliases() {
    for id in ["ubuntu", "debian", "linuxmint", "pop"] {
        assert_eq!(family_of(id), Some(Family::Apt));
    }
}

#[test]
fn dnf_aliases() {
    for id in ["fedora", "rhel", "centos", "rocky", "almalinux"] {
        assert_eq!(family_of(id), Some(Family::Dnf));
    }
}

#[test]
fn pacman_aliases() {
    for id in ["arch", "manjaro", "endeavouros", "artix"] {
        assert_eq!(family_of(id), Some(Family::Pacman));
    }
}

#[test]
fn zypper_aliases() {
    for id in ["opensuse", "opensuse-tumbleweed", "opensuse-leap"] {
        assert_eq!(family_of(id), Some(Family::Zypper));
    }
}

#[test]
fn apk_alias() {
    assert_eq!(family_of("alpine"), Some(Family::Apk));
}

#[test]
fn unknown_identifiers() {
    for id in ["gentoo", "slackware", "", "Ubuntu", "ARCH", "opensuse-"] {
        assert_eq!(family_of(id), None);
    }
}

#[test]
fn apt_steps() {
    let v = steps_for(Family::Apt);
    assert_eq!(v.len(), 2);
    assert_eq!(v[0].program, "apt");
    assert_eq!(v[0].args, vec!["update"]);
    assert_eq!(v[1].program, "apt");
    assert_eq!(v[1].args, vec!["upgrade", "-y"]);
}

#[test]
fn dnf_steps() {
    let v = steps_for(Family::Dnf);
    assert_eq!(v.len(), 1);
    assert_eq!(v[0].program, "dnf");
    assert_eq!(v[0].args, vec!["upgrade", "-y"]);
}

#[test]
fn pacman_steps() {
    let v = steps_for(Family::Pacman);
    assert_eq!(v.len(), 1);
    assert_eq!(v[0].program, "pacman");
    assert_eq!(v[0].args, vec!["-Syu", "--noconfirm"]);
}

#[test]
fn zypper_steps() {
    let v = steps_for(Family::Zypper);
    assert_eq!(v.len(), 1);
    assert_eq!(v[0].program, "zypper");
    assert_eq!(v[0].args, vec!["update", "-y"]);
}

#[test]
fn apk_steps() {
    let v = steps_for(Family::Apk);
    assert_eq!(v.len(), 2);
    assert_eq!(v[0].program, "apk");
    assert_eq!(v[0].args, vec!["update"]);
    assert_eq!(v[1].program, "apk");
    assert_eq!(v[1].args, vec!["upgrade"]);
}

#[test]
fn apt_failed_update_skips_upgrade() {
    let mut run = plan_update("pop").expect("pop belongs to the apt family");
    assert_eq!(run.family(), Family::Apt);
    let first = run.next_command().expect("the first step is offered");
    assert_eq!(first.program, "apt");
    assert_eq!(first.args, vec!["update"]);
    run.record_outcome(false);
    assert!(run.next_command().is_none());
    assert_eq!(run.verdict(), Some(false));
}

#[test]
fn apt_full_run_succeeds() {
    let mut run = plan_update("ubuntu").expect("ubuntu belongs to the apt family");
    let first = run.next_command().expect("the first step is offered");
    assert_eq!(first.program, "apt");
    assert_eq!(first.args, vec!["update"]);
    run.record_outcome(true);
    let second = run.next_command().expect("the second step follows a success");
    assert_eq!(second.program, "apt");
    assert_eq!(second.args, vec!["upgrade", "-y"]);
    run.record_outcome(true);
    assert!(run.next_command().is_none());
    assert_eq!(run.verdict(), Some(true));
}

#[test]
fn unsupported_plans_nothing() {
    assert!(plan_update("gentoo").is_none());
}

#[test]
fn verdict_pending_until_all_steps_recorded() {
    let mut run = plan_update("alpine").expect("alpine belongs to the apk family");
    assert_eq!(run.verdict(), None);
    run.next_command().expect("the first step is offered");
    run.record_outcome(true);
    assert_eq!(run.verdict(), None);
    run.next_command().expect("the second step is offered");
    run.record_outcome(true);
    assert_eq!(run.verdict(), Some(true));
}

#[test]
fn second_step_failure_fails_run() {
    let mut run = plan_update("debian").expect("debian belongs to the apt family");
    run.next_command().expect("the first step is offered");
    run.record_outcome(true);
    run.next_command().expect("the second step is offered");
    run.record_outcome(false);
    assert!(run.next_command().is_none());
    assert_eq!(run.verdict(), Some(false));
}
