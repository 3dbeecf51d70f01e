use dsh_desktop::backend::BackendSource;
use dsh_desktop::update::{
    check_backend_update, updater_command, upgrade_precheck, CheckAction, CheckEvent, UpdateCheck,
    UpdateReport,
};

fn git(s: &str) -> CheckEvent {
    CheckEvent::Git(Ok(s.to_string()))
}

fn step(state: UpdateCheck, e: CheckEvent) -> (UpdateCheck, CheckAction) {
    state.advance(e)
}

const REMOTES: &str = "origin\thttps://u/dsh.git (fetch)\norigin\thttps://u/dsh.git (push)\n";

fn begin() -> UpdateCheck {
    let (s, a) = check_backend_update(BackendSource::Packaged, true, Some(("https://u/dsh.git", "master")));
    assert!(matches!(a, CheckAction::ListRemotes));
    s
}

#[test]
fn refuses_outside_packaged_backend() {
    let (_, a) = check_backend_update(BackendSource::Env, true, Some(("u", "b")));
    assert!(matches!(a, CheckAction::Finish(UpdateReport::DevMode { ref source }) if source == "env DSH_BIN"));
}

#[test]
fn refuses_without_dir_or_manifest() {
    let (_, a) = check_backend_update(BackendSource::Packaged, false, Some(("u", "b")));
    assert!(matches!(a, CheckAction::Finish(UpdateReport::Failed { ref message }) if message == "no packaged backend dir"));
    let (_, a) = check_backend_update(BackendSource::Packaged, true, None);
    assert!(matches!(a, CheckAction::Finish(UpdateReport::Failed { ref message }) if message == "packaged backend has no manifest"));
    let (_, a) = check_backend_update(BackendSource::Packaged, true, Some(("", "master")));
    assert!(matches!(a, CheckAction::Finish(UpdateReport::Failed { ref message }) if message == "packaged backend manifest is incomplete"));
}

#[test]
fn full_check_reports_commits_behind() {
    let s = begin();
    let (s, a) = step(s, git(REMOTES));
    assert!(matches!(a, CheckAction::ReadLocalHead));
    let (s, a) = step(s, git("aaaaaaaaaaaa"));
    assert!(matches!(a, CheckAction::Fetch { ref remote, ref branch } if remote == "https://u/dsh.git" && branch == "master"));
    let (s, a) = step(s, git(""));
    assert!(matches!(a, CheckAction::ReadRemoteHead { ref reference } if reference == "origin/master"));
    let (s, a) = step(s, git("bbbbbbbbbbbb"));
    assert!(matches!(a, CheckAction::CheckAncestor { ref commit } if commit == "bbbbbbbbbbbb"));
    assert!(s.awaits_ancestor());
    let (s, a) = step(s, CheckEvent::Ancestor(true));
    assert!(matches!(a, CheckAction::CountBehind { ref range } if range == "HEAD..bbbbbbbbbbbb"));
    let (s, a) = step(s, git("3"));
    assert!(s.is_done());
    assert!(matches!(a, CheckAction::Finish(UpdateReport::Available { ref local, ref remote, behind: 3 }) if local == "aaaaaaa" && remote == "bbbbbbb"));
}

#[test]
fn unreadable_count_is_zero_behind() {
    let s = begin();
    let (s, _) = step(s, git(REMOTES));
    let (s, _) = step(s, git("aaaaaaaa"));
    let (s, _) = step(s, git(""));
    let (s, _) = step(s, git("bbbbbbbb"));
    let (s, _) = step(s, CheckEvent::Ancestor(true));
    let (_, a) = step(s, CheckEvent::Git(Err("boom".to_string())));
    assert!(matches!(a, CheckAction::Finish(UpdateReport::Available { behind: 0, .. })));
}

#[test]
fn up_to_date_and_diverged() {
    let s = begin();
    let (s, _) = step(s, git(REMOTES));
    let (s, _) = step(s, git("cccccccccc"));
    let (s, _) = step(s, git(""));
    let (_, a) = step(s, git("cccccccccc"));
    assert!(matches!(a, CheckAction::Finish(UpdateReport::UpToDate { ref local }) if local == "ccccccc"));

    let s = begin();
    let (s, _) = step(s, git(REMOTES));
    let (s, _) = step(s, git("dddddddddd"));
    let (s, _) = step(s, git(""));
    let (s, _) = step(s, git("eeeeeeeeee"));
    let (_, a) = step(s, CheckEvent::Ancestor(false));
    assert!(matches!(a, CheckAction::Finish(UpdateReport::Diverged { ref local, ref remote }) if local == "ddddddd" && remote == "eeeeeee"));
}

#[test]
fn failures_carry_git_detail() {
    let s = begin();
    let (_, a) = step(s, git("origin\thttps://other (fetch)\n"));
    assert!(matches!(a, CheckAction::Finish(UpdateReport::Failed { ref message }) if message == "tracked fork is not a remote of the packaged clone"));

    let s = begin();
    let (s, _) = step(s, git(REMOTES));
    let (_, a) = step(s, CheckEvent::Git(Err("bad HEAD".to_string())));
    assert!(matches!(a, CheckAction::Finish(UpdateReport::Failed { ref message }) if message == "local HEAD unreadable: bad HEAD"));

    let s = begin();
    let (s, _) = step(s, git(REMOTES));
    let (s, _) = step(s, git("aaaa"));
    let (_, a) = step(s, CheckEvent::Git(Err("offline".to_string())));
    assert!(matches!(a, CheckAction::Finish(UpdateReport::Failed { ref message }) if message == "could not reach the fork: offline"));

    let s = begin();
    let (s, _) = step(s, git(REMOTES));
    let (s, _) = step(s, git("aaaa"));
    let (s, _) = step(s, git(""));
    let (_, a) = step(s, CheckEvent::Git(Err("no ref".to_string())));
    assert!(matches!(a, CheckAction::Finish(UpdateReport::Failed { ref message }) if message == "remote branch unreadable: no ref"));
}

#[test]
fn upgrade_refusals() {
    assert_eq!(upgrade_precheck(BackendSource::Sibling, true, true, true), Some("dev checkout mode: update with git directly"));
    assert_eq!(upgrade_precheck(BackendSource::Packaged, false, true, true), Some("no packaged backend dir"));
    assert_eq!(upgrade_precheck(BackendSource::Packaged, true, false, true), Some("packaged backend has no manifest"));
    assert_eq!(upgrade_precheck(BackendSource::Packaged, true, true, false), Some("updater.cmd missing from packaged backend"));
    assert_eq!(upgrade_precheck(BackendSource::Packaged, true, true, true), None);
}

#[test]
fn updater_command_line() {
    assert_eq!(
        updater_command("C:\\s\\updater.cmd", "C:\\s", Some(REMOTES), "https://u/dsh.git", "master", "C:\\app\\dsh.exe"),
        Ok(vec!["/C", "start", "/min", "", "C:\\s\\updater.cmd", "C:\\s", "origin", "master", "C:\\app\\dsh.exe"]
            .into_iter().map(String::from).collect())
    );
    assert_eq!(
        updater_command("u", "d", None, "https://u/dsh.git", "master", "exe"),
        Err("tracked fork is not a remote of the packaged clone")
    );
    assert_eq!(
        updater_command("u", "d", Some(REMOTES), "https://u/dsh.git", "master", ""),
        Err("cannot locate shell exe for relaunch")
    );
}
