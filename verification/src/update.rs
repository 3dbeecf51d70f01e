//! Upgrade dsh: the update check of the packaged backend as a state machine
//! (the shell runs each git step and hands back its outcome), and the
//! refusals and command line of the detached updater.
use vstd::prelude::*;

use crate::backend::{
    remote_named_spec, short_sha, short_sha_spec, source_label_spec, tracked_remote_name,
    BackendSource,
};
use crate::text::{lines_spec, parse_u64, parse_u64_spec, str_eq};

verus! {

/// What the update check reports.
pub enum UpdateReport {
    /// The backend is not the packaged one; nothing is checked.
    DevMode { source: String },
    /// The check could not finish.
    Failed { message: String },
    /// Local and tracked branch agree.
    UpToDate { local: String },
    /// The heads differ and the local one is not in the tracked branch's
    /// history: no fast-forward is possible.
    Diverged { local: String, remote: String },
    /// The local head is in the tracked branch's history, which is ahead by
    /// `behind` commits: a fast-forward.
    Available { local: String, remote: String, behind: u64 },
}

pub enum ReportSpec {
    DevMode { source: Seq<char> },
    Failed { message: Seq<char> },
    UpToDate { local: Seq<char> },
    Diverged { local: Seq<char>, remote: Seq<char> },
    Available { local: Seq<char>, remote: Seq<char>, behind: u64 },
}

impl View for UpdateReport {
    type V = ReportSpec;

    open spec fn view(&self) -> ReportSpec {
        match self {
            UpdateReport::DevMode { source } => ReportSpec::DevMode { source: source@ },
            UpdateReport::Failed { message } => ReportSpec::Failed { message: message@ },
            UpdateReport::UpToDate { local } => ReportSpec::UpToDate { local: local@ },
            UpdateReport::Diverged { local, remote } => ReportSpec::Diverged {
                local: local@,
                remote: remote@,
            },
            UpdateReport::Available { local, remote, behind } => ReportSpec::Available {
                local: local@,
                remote: remote@,
                behind: *behind,
            },
        }
    }
}

/// The next piece of outside work, or the final report.
pub enum CheckAction {
    /// Run `git remote -v` in the packaged clone; answer with `Git`.
    ListRemotes,
    /// Run `git rev-parse HEAD`; answer with `Git`.
    ReadLocalHead,
    /// Run `git fetch <remote> <branch>`; answer with `Git`.
    Fetch { remote: String, branch: String },
    /// Run `git rev-parse <reference>`; answer with `Git`.
    ReadRemoteHead { reference: String },
    /// Run `git merge-base --is-ancestor HEAD <commit>` (is the local head in
    /// the history of `commit`?); answer with `Ancestor`.
    CheckAncestor { commit: String },
    /// Run `git rev-list --count <range>`; answer with `Git`.
    CountBehind { range: String },
    /// The check is over.
    Finish(UpdateReport),
}

pub enum ActionSpec {
    ListRemotes,
    ReadLocalHead,
    Fetch { remote: Seq<char>, branch: Seq<char> },
    ReadRemoteHead { reference: Seq<char> },
    CheckAncestor { commit: Seq<char> },
    CountBehind { range: Seq<char> },
    Finish(ReportSpec),
}

impl View for CheckAction {
    type V = ActionSpec;

    open spec fn view(&self) -> ActionSpec {
        match self {
            CheckAction::ListRemotes => ActionSpec::ListRemotes,
            CheckAction::ReadLocalHead => ActionSpec::ReadLocalHead,
            CheckAction::Fetch { remote, branch } => ActionSpec::Fetch {
                remote: remote@,
                branch: branch@,
            },
            CheckAction::ReadRemoteHead { reference } => ActionSpec::ReadRemoteHead {
                reference: reference@,
            },
            CheckAction::CheckAncestor { commit } => ActionSpec::CheckAncestor { commit: commit@ },
            CheckAction::CountBehind { range } => ActionSpec::CountBehind { range: range@ },
            CheckAction::Finish(r) => ActionSpec::Finish(r@),
        }
    }
}

/// The outcome of the last piece of outside work.
pub enum CheckEvent {
    /// A git run: trimmed output, or trimmed error text.
    Git(Result<String, String>),
    /// Whether the ancestry test succeeded.
    Ancestor(bool),
}

pub enum EventSpec {
    Git(Result<Seq<char>, Seq<char>>),
    Ancestor(bool),
}

impl View for CheckEvent {
    type V = EventSpec;

    open spec fn view(&self) -> EventSpec {
        match self {
            CheckEvent::Git(Ok(t)) => EventSpec::Git(Ok(t@)),
            CheckEvent::Git(Err(t)) => EventSpec::Git(Err(t@)),
            CheckEvent::Ancestor(b) => EventSpec::Ancestor(*b),
        }
    }
}

/// How far the check has come.
#[derive(Clone, Copy, Debug, PartialEq, Eq, Structural)]
pub enum CheckStage {
    ListingRemotes,
    ReadingLocal,
    Fetching,
    ReadingRemote,
    CheckingAncestor,
    CountingBehind,
    Done,
}

pub open spec fn stage_rank(s: CheckStage) -> nat {
    match s {
        CheckStage::ListingRemotes => 0,
        CheckStage::ReadingLocal => 1,
        CheckStage::Fetching => 2,
        CheckStage::ReadingRemote => 3,
        CheckStage::CheckingAncestor => 4,
        CheckStage::CountingBehind => 5,
        CheckStage::Done => 6,
    }
}

/// A running update check: the tracked URL and branch from the manifest and
/// what git reported so far.
pub struct UpdateCheck {
    stage: CheckStage,
    url: String,
    branch: String,
    remote_name: String,
    local: String,
    remote: String,
}

pub struct CheckState {
    pub stage: CheckStage,
    pub url: Seq<char>,
    pub branch: Seq<char>,
    pub remote_name: Seq<char>,
    pub local: Seq<char>,
    pub remote: Seq<char>,
}

impl View for UpdateCheck {
    type V = CheckState;

    closed spec fn view(&self) -> CheckState {
        CheckState {
            stage: self.stage,
            url: self.url@,
            branch: self.branch@,
            remote_name: self.remote_name@,
            local: self.local@,
            remote: self.remote@,
        }
    }
}

pub open spec fn with_stage(s: CheckState, stage: CheckStage) -> CheckState {
    CheckState {
        stage,
        url: s.url,
        branch: s.branch,
        remote_name: s.remote_name,
        local: s.local,
        remote: s.remote,
    }
}

pub open spec fn fail(s: CheckState, message: Seq<char>) -> (CheckState, ActionSpec) {
    (with_stage(s, CheckStage::Done), ActionSpec::Finish(ReportSpec::Failed { message }))
}

/// The first step: refuse outside the packaged backend, or without a
/// packaged dir or a complete manifest (tracked URL and branch); otherwise
/// list the clone's remotes.
pub open spec fn check_start_spec(
    source: BackendSource,
    dir_known: bool,
    manifest: Option<(Seq<char>, Seq<char>)>,
) -> (CheckState, ActionSpec) {
    let empty = Seq::<char>::empty();
    let (url, branch) = match manifest {
        Some((u, b)) => (u, b),
        None => (empty, empty),
    };
    let s = CheckState {
        stage: CheckStage::ListingRemotes,
        url,
        branch,
        remote_name: empty,
        local: empty,
        remote: empty,
    };
    if source != BackendSource::Packaged {
        (
            with_stage(s, CheckStage::Done),
            ActionSpec::Finish(ReportSpec::DevMode { source: source_label_spec(source) }),
        )
    } else if !dir_known {
        fail(s, "no packaged backend dir"@)
    } else if manifest is None {
        fail(s, "packaged backend has no manifest"@)
    } else if url.len() == 0 || branch.len() == 0 {
        fail(s, "packaged backend manifest is incomplete"@)
    } else {
        (s, ActionSpec::ListRemotes)
    }
}

/// One step of the check: from the state and the outcome of the last piece
/// of outside work, the next state and the next piece of work (or report).
pub open spec fn check_step_spec(s: CheckState, e: EventSpec) -> (CheckState, ActionSpec) {
    match (s.stage, e) {
        (CheckStage::ListingRemotes, EventSpec::Git(r)) => {
            let name = match r {
                Ok(text) => remote_named_spec(lines_spec(text), s.url),
                Err(_) => None,
            };
            match name {
                None => fail(s, "tracked fork is not a remote of the packaged clone"@),
                Some(n) => (
                    CheckState {
                        stage: CheckStage::ReadingLocal,
                        url: s.url,
                        branch: s.branch,
                        remote_name: n,
                        local: s.local,
                        remote: s.remote,
                    },
                    ActionSpec::ReadLocalHead,
                ),
            }
        },
        (CheckStage::ReadingLocal, EventSpec::Git(Ok(sha))) => (
            CheckState {
                stage: CheckStage::Fetching,
                url: s.url,
                branch: s.branch,
                remote_name: s.remote_name,
                local: sha,
                remote: s.remote,
            },
            ActionSpec::Fetch { remote: s.url, branch: s.branch },
        ),
        (CheckStage::ReadingLocal, EventSpec::Git(Err(d))) => fail(
            s,
            "local HEAD unreadable: "@ + d,
        ),
        (CheckStage::Fetching, EventSpec::Git(Ok(_))) => (
            with_stage(s, CheckStage::ReadingRemote),
            ActionSpec::ReadRemoteHead { reference: s.remote_name + "/"@ + s.branch },
        ),
        (CheckStage::Fetching, EventSpec::Git(Err(d))) => fail(
            s,
            "could not reach the fork: "@ + d,
        ),
        (CheckStage::ReadingRemote, EventSpec::Git(Ok(sha))) => if s.local == sha {
            (
                with_stage(s, CheckStage::Done),
                ActionSpec::Finish(ReportSpec::UpToDate { local: short_sha_spec(s.local) }),
            )
        } else {
            (
                CheckState {
                    stage: CheckStage::CheckingAncestor,
                    url: s.url,
                    branch: s.branch,
                    remote_name: s.remote_name,
                    local: s.local,
                    remote: sha,
                },
                ActionSpec::CheckAncestor { commit: sha },
            )
        },
        (CheckStage::ReadingRemote, EventSpec::Git(Err(d))) => fail(
            s,
            "remote branch unreadable: "@ + d,
        ),
        (CheckStage::CheckingAncestor, EventSpec::Ancestor(true)) => (
            with_stage(s, CheckStage::CountingBehind),
            ActionSpec::CountBehind { range: "HEAD.."@ + s.remote },
        ),
        (CheckStage::CheckingAncestor, EventSpec::Ancestor(false)) => (
            with_stage(s, CheckStage::Done),
            ActionSpec::Finish(
                ReportSpec::Diverged {
                    local: short_sha_spec(s.local),
                    remote: short_sha_spec(s.remote),
                },
            ),
        ),
        (CheckStage::CountingBehind, EventSpec::Git(r)) => {
            let behind = match r {
                Ok(t) => match parse_u64_spec(t) {
                    Some(n) => n,
                    None => 0,
                },
                Err(_) => 0,
            };
            (
                with_stage(s, CheckStage::Done),
                ActionSpec::Finish(
                    ReportSpec::Available {
                        local: short_sha_spec(s.local),
                        remote: short_sha_spec(s.remote),
                        behind,
                    },
                ),
            )
        },
        _ => fail(s, Seq::empty()),
    }
}

/// Whether `e` is the kind of outcome the state waits for.
pub open spec fn awaits(s: CheckState, e: EventSpec) -> bool {
    &&& s.stage != CheckStage::Done
    &&& (s.stage == CheckStage::CheckingAncestor <==> e is Ancestor)
}

/// Each step moves the check strictly forward and keeps the manifest's URL
/// and branch, so it ends within six steps; every fetch targets the
/// manifest's URL and branch.
pub proof fn lemma_check_progress(s: CheckState, e: EventSpec)
    requires
        awaits(s, e),
    ensures
        stage_rank(check_step_spec(s, e).0.stage) > stage_rank(s.stage),
        check_step_spec(s, e).0.url == s.url,
        check_step_spec(s, e).0.branch == s.branch,
        check_step_spec(s, e).1 matches ActionSpec::Fetch { remote, branch } ==> remote == s.url
            && branch == s.branch,
        check_step_spec(s, e).1 is Finish <==> check_step_spec(s, e).0.stage == CheckStage::Done,
{
}

/// The report follows the heads: up to date only when the fetched head is
/// the local one; commits are counted (and an upgrade offered) only after
/// the local head was found in the tracked branch's history; otherwise the
/// differing heads are reported as diverged.
pub proof fn lemma_check_verdicts(s: CheckState, e: EventSpec)
    requires
        awaits(s, e),
    ensures
        check_step_spec(s, e).1 matches ActionSpec::Finish(ReportSpec::UpToDate { .. })
            ==> s.stage == CheckStage::ReadingRemote && e == EventSpec::Git(Ok(s.local)),
        check_step_spec(s, e).0.stage == CheckStage::CountingBehind ==> s.stage
            == CheckStage::CheckingAncestor && e == EventSpec::Ancestor(true),
        check_step_spec(s, e).1 matches ActionSpec::Finish(ReportSpec::Available { .. })
            ==> s.stage == CheckStage::CountingBehind,
        check_step_spec(s, e).1 matches ActionSpec::Finish(ReportSpec::Diverged { .. })
            ==> s.stage == CheckStage::CheckingAncestor && e == EventSpec::Ancestor(false),
{
}

/// Only the packaged backend is ever checked: any other source is reported
/// as dev mode before any git work.
pub proof fn lemma_check_refused_outside_packaged(
    source: BackendSource,
    dir_known: bool,
    manifest: Option<(Seq<char>, Seq<char>)>,
)
    requires
        source != BackendSource::Packaged,
    ensures
        check_start_spec(source, dir_known, manifest).1 == ActionSpec::Finish(
            ReportSpec::DevMode { source: source_label_spec(source) },
        ),
{
}

fn failed(s: UpdateCheck, message: String) -> (r: (UpdateCheck, CheckAction))
    ensures
        (r.0@, r.1@) == fail(s@, message@),
{
    let mut s = s;
    s.stage = CheckStage::Done;
    (s, CheckAction::Finish(UpdateReport::Failed { message }))
}

/// Starts the update check of the backend from `source`; `manifest` is the
/// tracked (URL, branch) when the manifest was readable.
pub fn check_backend_update(source: BackendSource, dir_known: bool, manifest: Option<(&str, &str)>) -> (r: (
    UpdateCheck,
    CheckAction,
))
    ensures
        (r.0@, r.1@) == check_start_spec(
            source,
            dir_known,
            match manifest {
                Some((u, b)) => Some((u@, b@)),
                None => None,
            },
        ),
{
    let (url, branch) = match manifest {
        Some((u, b)) => (String::from_str(u), String::from_str(b)),
        None => (String::new(), String::new()),
    };
    let s = UpdateCheck {
        stage: CheckStage::ListingRemotes,
        url,
        branch,
        remote_name: String::new(),
        local: String::new(),
        remote: String::new(),
    };
    match source {
        BackendSource::Packaged => {},
        _ => {
            let mut s = s;
            s.stage = CheckStage::Done;
            return (s, CheckAction::Finish(UpdateReport::DevMode { source: String::from_str(source.label()) }));
        },
    }
    if !dir_known {
        return failed(s, String::from_str("no packaged backend dir"));
    }
    if manifest.is_none() {
        return failed(s, String::from_str("packaged backend has no manifest"));
    }
    if s.url.unicode_len() == 0 || s.branch.unicode_len() == 0 {
        return failed(s, String::from_str("packaged backend manifest is incomplete"));
    }
    (s, CheckAction::ListRemotes)
}

impl UpdateCheck {
    /// Whether the check waits for the ancestry test's outcome.
    pub fn awaits_ancestor(&self) -> (r: bool)
        ensures
            r == (self@.stage == CheckStage::CheckingAncestor),
    {
        match self.stage {
            CheckStage::CheckingAncestor => true,
            _ => false,
        }
    }

    /// Whether the check has finished.
    pub fn is_done(&self) -> (r: bool)
        ensures
            r == (self@.stage == CheckStage::Done),
    {
        match self.stage {
            CheckStage::Done => true,
            _ => false,
        }
    }

    /// Advances the check by the outcome of the work it asked for last.
    pub fn advance(self, event: CheckEvent) -> (r: (UpdateCheck, CheckAction))
        requires
            awaits(self@, event@),
        ensures
            (r.0@, r.1@) == check_step_spec(self@, event@),
    {
        let mut s = self;
        match (s.stage, event) {
            (CheckStage::ListingRemotes, CheckEvent::Git(r)) => {
                let name = match r {
                    Ok(text) => tracked_remote_name(text.as_str(), s.url.as_str()),
                    Err(_) => None,
                };
                match name {
                    None => failed(
                        s,
                        String::from_str("tracked fork is not a remote of the packaged clone"),
                    ),
                    Some(n) => {
                        s.stage = CheckStage::ReadingLocal;
                        s.remote_name = n;
                        (s, CheckAction::ReadLocalHead)
                    },
                }
            },
            (CheckStage::ReadingLocal, CheckEvent::Git(Ok(sha))) => {
                s.stage = CheckStage::Fetching;
                s.local = sha;
                let remote = s.url.clone();
                let branch = s.branch.clone();
                (s, CheckAction::Fetch { remote, branch })
            },
            (CheckStage::ReadingLocal, CheckEvent::Git(Err(d))) => {
                let m = String::from_str("local HEAD unreadable: ").concat(d.as_str());
                failed(s, m)
            },
            (CheckStage::Fetching, CheckEvent::Git(Ok(_))) => {
                s.stage = CheckStage::ReadingRemote;
                let reference = s.remote_name.clone().concat("/").concat(s.branch.as_str());
                (s, CheckAction::ReadRemoteHead { reference })
            },
            (CheckStage::Fetching, CheckEvent::Git(Err(d))) => {
                let m = String::from_str("could not reach the fork: ").concat(d.as_str());
                failed(s, m)
            },
            (CheckStage::ReadingRemote, CheckEvent::Git(Ok(sha))) => {
                if str_eq(s.local.as_str(), sha.as_str()) {
                    s.stage = CheckStage::Done;
                    let local = short_sha(s.local.as_str());
                    (s, CheckAction::Finish(UpdateReport::UpToDate { local }))
                } else {
                    s.stage = CheckStage::CheckingAncestor;
                    let commit = sha.clone();
                    s.remote = sha;
                    (s, CheckAction::CheckAncestor { commit })
                }
            },
            (CheckStage::ReadingRemote, CheckEvent::Git(Err(d))) => {
                let m = String::from_str("remote branch unreadable: ").concat(d.as_str());
                failed(s, m)
            },
            (CheckStage::CheckingAncestor, CheckEvent::Ancestor(true)) => {
                s.stage = CheckStage::CountingBehind;
                let range = String::from_str("HEAD..").concat(s.remote.as_str());
                (s, CheckAction::CountBehind { range })
            },
            (CheckStage::CheckingAncestor, CheckEvent::Ancestor(false)) => {
                s.stage = CheckStage::Done;
                let local = short_sha(s.local.as_str());
                let remote = short_sha(s.remote.as_str());
                (s, CheckAction::Finish(UpdateReport::Diverged { local, remote }))
            },
            (CheckStage::CountingBehind, CheckEvent::Git(r)) => {
                let behind = match r {
                    Ok(t) => match parse_u64(t.as_str()) {
                        Some(n) => n,
                        None => 0,
                    },
                    Err(_) => 0,
                };
                s.stage = CheckStage::Done;
                let local = short_sha(s.local.as_str());
                let remote = short_sha(s.remote.as_str());
                (s, CheckAction::Finish(UpdateReport::Available { local, remote, behind }))
            },
            _ => failed(s, String::new()),
        }
    }
}

/// Why an upgrade is refused before the clone's remotes are consulted, if
/// it is.
pub open spec fn upgrade_precheck_spec(
    source: BackendSource,
    dir_known: bool,
    manifest_known: bool,
    updater_present: bool,
) -> Option<Seq<char>> {
    if source != BackendSource::Packaged {
        Some("dev checkout mode: update with git directly"@)
    } else if !dir_known {
        Some("no packaged backend dir"@)
    } else if !manifest_known {
        Some("packaged backend has no manifest"@)
    } else if !updater_present {
        Some("updater.cmd missing from packaged backend"@)
    } else {
        None
    }
}

/// The updater never runs outside the packaged backend: any other source
/// is refused before anything else is looked at.
pub proof fn lemma_upgrade_refused_outside_packaged(
    source: BackendSource,
    dir_known: bool,
    manifest_known: bool,
    updater_present: bool,
)
    requires
        source != BackendSource::Packaged,
    ensures
        upgrade_precheck_spec(source, dir_known, manifest_known, updater_present) == Some(
            "dev checkout mode: update with git directly"@,
        ),
{
}

/// Refuses an upgrade outside the packaged backend, or without its dir,
/// manifest or updater script.
pub fn upgrade_precheck(
    source: BackendSource,
    dir_known: bool,
    manifest_known: bool,
    updater_present: bool,
) -> (r: Option<&'static str>)
    ensures
        match r {
            Some(m) => upgrade_precheck_spec(source, dir_known, manifest_known, updater_present)
                == Some(m@),
            None => upgrade_precheck_spec(source, dir_known, manifest_known, updater_present)
                is None,
        },
{
    match source {
        BackendSource::Packaged => {},
        _ => {
            return Some("dev checkout mode: update with git directly");
        },
    }
    if !dir_known {
        Some("no packaged backend dir")
    } else if !manifest_known {
        Some("packaged backend has no manifest")
    } else if !updater_present {
        Some("updater.cmd missing from packaged backend")
    } else {
        None
    }
}

/// Arguments of `cmd` that start the updater detached: it gets the
/// packaged dir, the tracked remote's name, the branch and the shell exe to
/// relaunch.
pub open spec fn updater_args_spec(
    updater: Seq<char>,
    dir: Seq<char>,
    remote_name: Seq<char>,
    branch: Seq<char>,
    shell_exe: Seq<char>,
) -> Seq<Seq<char>> {
    seq!["/C"@, "start"@, "/min"@, ""@, updater, dir, remote_name, branch, shell_exe]
}

/// The updater's command line once the precheck passed: refused when the
/// tracked URL is no remote of the clone (`remotes` is the `git remote -v`
/// output, `None` when git failed) or the shell exe is unknown.
pub open spec fn updater_command_spec(
    updater: Seq<char>,
    dir: Seq<char>,
    remotes: Option<Seq<char>>,
    url: Seq<char>,
    branch: Seq<char>,
    shell_exe: Seq<char>,
) -> Result<Seq<Seq<char>>, Seq<char>> {
    let name = match remotes {
        Some(text) => remote_named_spec(lines_spec(text), url),
        None => None,
    };
    match name {
        None => Err("tracked fork is not a remote of the packaged clone"@),
        Some(n) => if shell_exe.len() == 0 {
            Err("cannot locate shell exe for relaunch"@)
        } else {
            Ok(updater_args_spec(updater, dir, n, branch, shell_exe))
        },
    }
}

/// Builds the updater's command line, or the reason it cannot start.
pub fn updater_command(
    updater: &str,
    dir: &str,
    remotes: Option<&str>,
    url: &str,
    branch: &str,
    shell_exe: &str,
) -> (r: Result<Vec<String>, &'static str>)
    ensures
        match (r, updater_command_spec(updater@, dir@, remotes.deep_view(), url@, branch@, shell_exe@)) {
            (Ok(a), Ok(b)) => a.deep_view() == b,
            (Err(a), Err(b)) => a@ == b,
            _ => false,
        },
{
    let name = match remotes {
        Some(text) => tracked_remote_name(text, url),
        None => None,
    };
    match name {
        None => Err("tracked fork is not a remote of the packaged clone"),
        Some(n) => {
            if shell_exe.unicode_len() == 0 {
                return Err("cannot locate shell exe for relaunch");
            }
            let ghost nv = n@;
            let mut v: Vec<String> = Vec::new();
            v.push(String::from_str("/C"));
            v.push(String::from_str("start"));
            v.push(String::from_str("/min"));
            v.push(String::new());
            v.push(String::from_str(updater));
            v.push(String::from_str(dir));
            v.push(n);
            v.push(String::from_str(branch));
            v.push(String::from_str(shell_exe));
            proof {
                reveal_strlit("");
                assert(""@ =~= Seq::<char>::empty());
            }
            assert(v.deep_view() =~= updater_args_spec(updater@, dir@, nv, branch@, shell_exe@));
            Ok(v)
        },
    }
}

} // verus!
