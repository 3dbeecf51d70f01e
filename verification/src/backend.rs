//! The dsh backend the shell runs: which one is chosen, whether a packaged
//! one is ready to boot, how its version compares with what the browser
//! plugin was tested against, and how its startup line is read.
use vstd::prelude::*;

use crate::json::{json_bool_at, json_str_at, str_at, bool_at};
use crate::platform::joined_path;
use crate::semver::{requirement_satisfied, requirement_satisfied_spec};
use crate::text::{
    lemma_tokens_break, lemma_tokens_word, lemma_trim_end_after_prefix, lemma_trim_end_is_prefix,
    trim_end_spec, trim_start_spec,
    lemma_trim_no_ws, lossy_text, strip_prefix, strip_prefix_spec, tokens_acc, tokens_spec, trim,
    trim_spec, utf8_lossy, whitespace_tokens, is_ws,
};

verus! {

/// Where the backend binary came from, in order of precedence.
#[derive(Clone, Copy, Debug, PartialEq, Eq, Structural)]
pub enum BackendSource {
    /// `DSH_BIN` set to something non-blank.
    Env,
    /// A dsh checkout chosen in the shell's settings.
    Custom,
    /// The installer-packaged launcher exists.
    Packaged,
    /// A `dsh.cmd` sits beside the shell binary.
    Sibling,
    /// Plain `dsh`, found on `PATH`.
    Path,
    /// Nothing to boot: first-run setup is needed.
    FirstRun,
}

pub open spec fn source_label_spec(s: BackendSource) -> Seq<char> {
    match s {
        BackendSource::Env => "env DSH_BIN"@,
        BackendSource::Custom => "custom dsh dir"@,
        BackendSource::Packaged => "packaged backend"@,
        BackendSource::Sibling => "sibling dsh.cmd"@,
        BackendSource::Path => "PATH"@,
        BackendSource::FirstRun => "first-run setup"@,
    }
}

impl BackendSource {
    /// The label the shell logs and reports for this source.
    pub fn label(&self) -> (r: &'static str)
        ensures
            r@ == source_label_spec(*self),
    {
        match self {
            BackendSource::Env => "env DSH_BIN",
            BackendSource::Custom => "custom dsh dir",
            BackendSource::Packaged => "packaged backend",
            BackendSource::Sibling => "sibling dsh.cmd",
            BackendSource::Path => "PATH",
            BackendSource::FirstRun => "first-run setup",
        }
    }
}

pub open spec fn opt_view(o: Option<&str>) -> Option<Seq<char>> {
    match o {
        Some(x) => Some(x@),
        None => None,
    }
}

/// The backend to launch, first hit wins: a non-blank `DSH_BIN`, then a
/// non-blank custom dsh dir from the settings, then an existing packaged
/// launcher, then an existing sibling shim, then `dsh` when it is on `PATH`,
/// else first-run setup.
pub open spec fn backend_choice_spec(
    env_bin: Option<Seq<char>>,
    custom_dir: Option<Seq<char>>,
    packaged_launcher: Option<Seq<char>>,
    sibling_shim: Option<Seq<char>>,
    dsh_on_path: bool,
) -> (Seq<char>, BackendSource) {
    if env_bin is Some && trim_spec(env_bin->0).len() > 0 {
        (env_bin->0, BackendSource::Env)
    } else if custom_dir is Some && trim_spec(custom_dir->0).len() > 0 {
        (custom_dir->0, BackendSource::Custom)
    } else if packaged_launcher is Some {
        (packaged_launcher->0, BackendSource::Packaged)
    } else if sibling_shim is Some {
        (sibling_shim->0, BackendSource::Sibling)
    } else if dsh_on_path {
        ("dsh"@, BackendSource::Path)
    } else {
        (Seq::empty(), BackendSource::FirstRun)
    }
}

/// The first candidate present wins: a non-blank `DSH_BIN` over everything,
/// a non-blank custom dir over the packaged launcher, the packaged launcher
/// over the sibling shim, the shim over `PATH`; with nothing at all the
/// shell goes to first-run setup. A blank `DSH_BIN` or custom dir counts as
/// absent.
pub proof fn lemma_backend_precedence(
    env_bin: Option<Seq<char>>,
    custom_dir: Option<Seq<char>>,
    packaged_launcher: Option<Seq<char>>,
    sibling_shim: Option<Seq<char>>,
    dsh_on_path: bool,
)
    ensures
        ({
            let r = backend_choice_spec(env_bin, custom_dir, packaged_launcher, sibling_shim, dsh_on_path);
            let env_set = env_bin matches Some(e) && trim_spec(e).len() > 0;
            let custom_set = custom_dir matches Some(c) && trim_spec(c).len() > 0;
            &&& env_set ==> r == (env_bin->0, BackendSource::Env)
            &&& !env_set && custom_set ==> r == (custom_dir->0, BackendSource::Custom)
            &&& !env_set && !custom_set && packaged_launcher is Some ==> r == (
                packaged_launcher->0,
                BackendSource::Packaged,
            )
            &&& !env_set && !custom_set && packaged_launcher is None && sibling_shim is Some ==> r
                == (sibling_shim->0, BackendSource::Sibling)
            &&& !env_set && !custom_set && packaged_launcher is None && sibling_shim is None
                && dsh_on_path ==> r == ("dsh"@, BackendSource::Path)
            &&& r.1 == BackendSource::FirstRun <==> (!env_set && !custom_set && packaged_launcher
                is None && sibling_shim is None && !dsh_on_path)
        }),
{
}

/// Chooses the backend. `custom_dir` is the dsh dir the settings name;
/// `packaged_launcher` and `sibling_shim` are the paths of those files when
/// they exist; `dsh_on_path` says whether `dsh` resolves on `PATH`. The
/// returned text is the program to run, or the custom dir.
pub fn dsh_bin(
    env_bin: Option<&str>,
    custom_dir: Option<&str>,
    packaged_launcher: Option<&str>,
    sibling_shim: Option<&str>,
    dsh_on_path: bool,
) -> (r: (String, BackendSource))
    ensures
        (r.0@, r.1) == backend_choice_spec(
            opt_view(env_bin),
            opt_view(custom_dir),
            opt_view(packaged_launcher),
            opt_view(sibling_shim),
            dsh_on_path,
        ),
{
    if let Some(e) = env_bin {
        if trim(e).unicode_len() > 0 {
            return (String::from_str(e), BackendSource::Env);
        }
    }
    if let Some(c) = custom_dir {
        if trim(c).unicode_len() > 0 {
            return (String::from_str(c), BackendSource::Custom);
        }
    }
    if let Some(p) = packaged_launcher {
        return (String::from_str(p), BackendSource::Packaged);
    }
    if let Some(p) = sibling_shim {
        return (String::from_str(p), BackendSource::Sibling);
    }
    if dsh_on_path {
        return (String::from_str("dsh"), BackendSource::Path);
    }
    (String::new(), BackendSource::FirstRun)
}

/// A command to run: program, arguments, and the working directory when it
/// is not the shell's own.
pub struct Launch {
    pub program: String,
    pub args: Vec<String>,
    pub cwd: Option<String>,
}

impl View for Launch {
    type V = (Seq<char>, Seq<Seq<char>>, Option<Seq<char>>);

    open spec fn view(&self) -> (Seq<char>, Seq<Seq<char>>, Option<Seq<char>>) {
        (self.program@, self.args.deep_view(), self.cwd.deep_view())
    }
}

/// How a dsh checkout's CLI is run from source: `node` with these
/// arguments, in the checkout.
pub open spec fn cli_entry_spec() -> Seq<Seq<char>> {
    seq!["--import"@, "tsx/esm"@, "apps/cli/src/bin.ts"@]
}

/// How the chosen backend is started as `dsh web` on `port`: a custom dir
/// runs its CLI from source inside the dir, every other source runs its
/// program; first-run setup starts nothing.
pub open spec fn launch_spec(bin: Seq<char>, source: BackendSource, port: u16) -> Option<
    (Seq<char>, Seq<Seq<char>>, Option<Seq<char>>),
> {
    match source {
        BackendSource::FirstRun => None,
        BackendSource::Custom => Some(("node"@, cli_entry_spec() + web_args_spec(port), Some(bin))),
        _ => Some((bin, web_args_spec(port), None)),
    }
}

/// How the backend in use is asked for its version: a custom or packaged
/// checkout runs its CLI from source inside its dir (the packaged dir must
/// be known), every other source runs its program; first-run setup has
/// nothing to ask.
pub open spec fn version_probe_spec(
    bin: Seq<char>,
    source: BackendSource,
    packaged_dir: Option<Seq<char>>,
) -> Option<(Seq<char>, Seq<Seq<char>>, Option<Seq<char>>)> {
    match source {
        BackendSource::FirstRun => None,
        BackendSource::Custom => Some(("node"@, cli_entry_spec().push("--version"@), Some(bin))),
        BackendSource::Packaged => match packaged_dir {
            Some(d) => Some(("node"@, cli_entry_spec().push("--version"@), Some(d))),
            None => None,
        },
        _ => Some((bin, seq!["--version"@], None)),
    }
}

/// Every source but a custom dir runs the chosen program itself as
/// `<bin> web --no-open --port <port>` in the shell's own directory; a custom
/// dir runs `node --import tsx/esm apps/cli/src/bin.ts web --no-open --port
/// <port>` inside the dir; first-run setup starts nothing.
pub proof fn lemma_launch_runs_chosen_program(bin: Seq<char>, source: BackendSource, port: u16)
    ensures
        source != BackendSource::Custom && source != BackendSource::FirstRun ==> launch_spec(
            bin,
            source,
            port,
        ) == Some(
            (bin, seq!["web"@, "--no-open"@, "--port"@, crate::text::decimal_spec(port as nat)], None::<Seq<char>>),
        ),
        source == BackendSource::Custom ==> launch_spec(bin, source, port) == Some(
            (
                "node"@,
                seq![
                    "--import"@,
                    "tsx/esm"@,
                    "apps/cli/src/bin.ts"@,
                    "web"@,
                    "--no-open"@,
                    "--port"@,
                    crate::text::decimal_spec(port as nat),
                ],
                Some(bin),
            ),
        ),
        source == BackendSource::FirstRun <==> launch_spec(bin, source, port) is None,
{
    if source == BackendSource::Custom {
        assert(cli_entry_spec() + web_args_spec(port) =~= seq![
            "--import"@,
            "tsx/esm"@,
            "apps/cli/src/bin.ts"@,
            "web"@,
            "--no-open"@,
            "--port"@,
            crate::text::decimal_spec(port as nat),
        ]);
    }
}

/// The version probe asks the same program, in the same directory, that the
/// launch starts (for the packaged backend, its CLI inside the packaged dir);
/// only the arguments differ, ending in `--version`.
pub proof fn lemma_probe_matches_launch(
    bin: Seq<char>,
    source: BackendSource,
    port: u16,
    packaged_dir: Option<Seq<char>>,
)
    ensures
        source != BackendSource::Packaged ==> match (
            launch_spec(bin, source, port),
            version_probe_spec(bin, source, packaged_dir),
        ) {
            (Some(l), Some(p)) => l.0 == p.0 && l.2 == p.2 && p.1.last() == "--version"@,
            (None, None) => true,
            _ => false,
        },
        source == BackendSource::Packaged ==> (version_probe_spec(bin, source, packaged_dir)
            matches Some(p) ==> p.0 == "node"@ && p.2 == packaged_dir && p.1.last() == "--version"@),
{
}

fn cli_entry() -> (r: Vec<String>)
    ensures
        r.deep_view() == cli_entry_spec(),
{
    let mut v: Vec<String> = Vec::new();
    v.push(String::from_str("--import"));
    v.push(String::from_str("tsx/esm"));
    v.push(String::from_str("apps/cli/src/bin.ts"));
    assert(v.deep_view() =~= cli_entry_spec());
    v
}

/// The command that starts the chosen backend on `port`.
pub fn launch_command(bin: &str, source: BackendSource, port: u16) -> (r: Option<Launch>)
    ensures
        match r {
            Some(l) => launch_spec(bin@, source, port) == Some(l@),
            None => launch_spec(bin@, source, port) is None,
        },
{
    match source {
        BackendSource::FirstRun => None,
        BackendSource::Custom => {
            let mut args = cli_entry();
            let ghost a0 = args.deep_view();
            let mut web = dsh_web_args(port);
            let ghost w0 = web.deep_view();
            args.append(&mut web);
            assert(args.deep_view() =~= a0 + w0);
            Some(Launch { program: String::from_str("node"), args, cwd: Some(String::from_str(bin)) })
        },
        _ => Some(Launch { program: String::from_str(bin), args: dsh_web_args(port), cwd: None }),
    }
}

/// The command that asks the backend in use for its version.
pub fn version_probe(bin: &str, source: BackendSource, packaged_dir: Option<&str>) -> (r: Option<
    Launch,
>)
    ensures
        match r {
            Some(l) => version_probe_spec(bin@, source, opt_view(packaged_dir)) == Some(l@),
            None => version_probe_spec(bin@, source, opt_view(packaged_dir)) is None,
        },
{
    let cwd = match source {
        BackendSource::FirstRun => {
            return None;
        },
        BackendSource::Custom => String::from_str(bin),
        BackendSource::Packaged => match packaged_dir {
            Some(d) => String::from_str(d),
            None => {
                return None;
            },
        },
        _ => {
            let mut args: Vec<String> = Vec::new();
            args.push(String::from_str("--version"));
            assert(args.deep_view() =~= seq!["--version"@]);
            return Some(Launch { program: String::from_str(bin), args, cwd: None });
        },
    };
    let mut args = cli_entry();
    let ghost a0 = args.deep_view();
    args.push(String::from_str("--version"));
    assert(args.deep_view() =~= a0.push("--version"@));
    Some(Launch { program: String::from_str("node"), args, cwd: Some(cwd) })
}

/// Where a packaged backend keeps its installed dependencies.
pub fn node_modules_path(dir: &str) -> (r: String)
    ensures
        r@ == joined_path(dir@, "node_modules"@),
{
    crate::platform::join(dir, "node_modules")
}

/// The built CLI entry a packaged backend needs: `apps/cli/lib/bin.js`.
pub fn built_cli_path(dir: &str) -> (r: String)
    ensures
        r@ == joined_path(
            joined_path(joined_path(joined_path(dir@, "apps"@), "cli"@), "lib"@),
            "bin.js"@,
        ),
{
    let a = crate::platform::join(dir, "apps");
    let b = crate::platform::join(a.as_str(), "cli");
    let c = crate::platform::join(b.as_str(), "lib");
    crate::platform::join(c.as_str(), "bin.js")
}

pub open spec fn not_installed_message(dir: Seq<char>) -> Seq<char> {
    "packaged backend at "@ + dir
        + " has no node_modules: run pnpm install inside it (or Upgrade dsh once running)"@
}

pub open spec fn not_built_message(dir: Seq<char>) -> Seq<char> {
    "packaged backend at "@ + dir
        + " was never built (workspace lib/ missing): run pnpm run build inside it (or Upgrade dsh once running)"@
}

/// Pre-flight of a packaged backend shown as `dir`: refused with the exact
/// fix when its dependencies are missing or it was never built.
pub fn packaged_backend_ready(dir: &str, has_node_modules: bool, has_built_cli: bool) -> (r: Result<
    (),
    String,
>)
    ensures
        !has_node_modules ==> (r matches Err(m) && m@ == not_installed_message(dir@)),
        has_node_modules && !has_built_cli ==> (r matches Err(m) && m@ == not_built_message(dir@)),
        has_node_modules && has_built_cli ==> r is Ok,
{
    if !has_node_modules {
        return Err(
            String::from_str("packaged backend at ").concat(dir).concat(
                " has no node_modules: run pnpm install inside it (or Upgrade dsh once running)",
            ),
        );
    }
    if !has_built_cli {
        return Err(
            String::from_str("packaged backend at ").concat(dir).concat(
                " was never built (workspace lib/ missing): run pnpm run build inside it (or Upgrade dsh once running)",
            ),
        );
    }
    Ok(())
}

/// The version range the staged browser plugin declares for its backend:
/// the string at `/dsh/engines/backend` of its `package.json`.
pub fn browser_requirement(package_json: &str) -> (r: Option<String>)
    ensures
        r.deep_view() == json_str_at(package_json@, "/dsh/engines/backend"@),
{
    str_at(package_json, "/dsh/engines/backend")
}

/// How the compatibility label names the backend in use.
pub open spec fn compat_kind_spec(source: BackendSource) -> Seq<char> {
    match source {
        BackendSource::Packaged => "packaged"@,
        BackendSource::Custom => "custom"@,
        BackendSource::FirstRun => "none"@,
        _ => source_label_spec(source),
    }
}

fn compat_kind(source: BackendSource) -> (r: &'static str)
    ensures
        r@ == compat_kind_spec(source),
{
    match source {
        BackendSource::Packaged => "packaged",
        BackendSource::Custom => "custom",
        BackendSource::FirstRun => "none",
        _ => source.label(),
    }
}

/// The settings label and, on a mismatch, the (version, requirement) pair to
/// warn about. Whatever the source, a known requirement and a reported
/// version are compared; without either there is no verdict.
pub open spec fn compat_verdict_spec(
    source: BackendSource,
    requirement: Option<Seq<char>>,
    version: Option<Seq<char>>,
) -> (Seq<char>, Option<(Seq<char>, Seq<char>)>) {
    let head = "Backend: "@ + compat_kind_spec(source) + " · "@;
    match requirement {
        None => (head + "compatibility unknown"@, None),
        Some(r) => match version {
            Some(v) => match requirement_satisfied_spec(r, v) {
                Some(true) => (head + v + " ✓"@, None),
                Some(false) => (head + v + " — browser needs "@ + r, Some((v, r))),
                None => (head + "version unknown"@, None),
            },
            None => (head + "version unknown"@, None),
        },
    }
}

/// The compatibility label of the backend in use, and the (version,
/// requirement) pair to warn about when they do not match.
pub fn compat_verdict(source: BackendSource, requirement: Option<&str>, version: Option<&str>) -> (r: (
    String,
    Option<(String, String)>,
))
    ensures
        r.0@ == compat_verdict_spec(source, opt_view(requirement), opt_view(version)).0,
        r.1.deep_view() == compat_verdict_spec(source, opt_view(requirement), opt_view(version)).1,
{
    let head = String::from_str("Backend: ").concat(compat_kind(source)).concat(" · ");
    match requirement {
        None => (head.concat("compatibility unknown"), None),
        Some(req) => match version {
            Some(v) => match requirement_satisfied(req, v) {
                Some(true) => (head.concat(v).concat(" ✓"), None),
                Some(false) => (
                    head.concat(v).concat(" — browser needs ").concat(req),
                    Some((String::from_str(v), String::from_str(req))),
                ),
                None => (head.concat("version unknown"), None),
            },
            None => (head.concat("version unknown"), None),
        },
    }
}

/// For every source, a mismatch is warned about exactly when the requirement
/// and the version are both known and the requirement is unmet; a match or
/// a missing verdict never warns.
pub proof fn lemma_compat_warns_only_on_mismatch(
    source: BackendSource,
    requirement: Option<Seq<char>>,
    version: Option<Seq<char>>,
)
    ensures
        compat_verdict_spec(source, requirement, version).1 is Some <==> (requirement is Some
            && version is Some && requirement_satisfied_spec(requirement->0, version->0) == Some(
            false,
        )),
        compat_verdict_spec(source, requirement, version).1 matches Some((v, r)) ==> Some(v)
            == version && Some(r) == requirement,
{
}

/// Title and body of the one-time warning about a backend outside the
/// browser plugin's tested range.
pub fn compat_warning(version: &str, requirement: &str) -> (r: (String, String))
    ensures
        r.0@ == "Browser tab unavailable"@,
        r.1@ == "Backend "@ + version@ + " is outside dsh-browser's tested range (needs "@
            + requirement@ + "). Chat is unaffected."@,
{
    (
        String::from_str("Browser tab unavailable"),
        String::from_str("Backend ").concat(version).concat(
            " is outside dsh-browser's tested range (needs ",
        ).concat(requirement).concat("). Chat is unaffected."),
    )
}

/// Arguments that start `dsh web` on a chosen loopback port.
pub open spec fn web_args_spec(port: u16) -> Seq<Seq<char>> {
    seq!["web"@, "--no-open"@, "--port"@, crate::text::decimal_spec(port as nat)]
}

/// Arguments that start `dsh web` on a chosen loopback port.
pub fn dsh_web_args(port: u16) -> (r: Vec<String>)
    ensures
        r.deep_view() == web_args_spec(port),
{
    let mut v: Vec<String> = Vec::new();
    v.push(String::from_str("web"));
    v.push(String::from_str("--no-open"));
    v.push(String::from_str("--port"));
    v.push(crate::text::decimal(port as u64));
    assert(v.deep_view() =~= seq!["web"@, "--no-open"@, "--port"@, crate::text::decimal_spec(port as nat)]);
    v
}

/// The URL a `dsh web: <url> [(LAN: ...)]` line announces.
pub open spec fn startup_url_spec(line: Seq<char>) -> Option<Seq<char>> {
    match strip_prefix_spec(line, "dsh web: "@) {
        None => None,
        Some(rest) => {
            let u = trim_spec(rest);
            if tokens_spec(u).len() > 0 {
                Some(tokens_spec(u)[0])
            } else {
                Some(u)
            }
        },
    }
}

/// The startup line `dsh web: <url>` announces `<url>`, also when an
/// annotation such as `(LAN: ...)` follows it after whitespace.
pub proof fn lemma_startup_url_reads_url(u: Seq<char>, tail: Seq<char>)
    requires
        u.len() > 0,
        forall|i: int| 0 <= i < u.len() ==> !is_ws(#[trigger] u[i]),
        tail.len() == 0 || is_ws(tail[0]),
    ensures
        startup_url_spec("dsh web: "@ + u + tail) == Some(u),
{
    reveal_strlit("dsh web: ");
    let pre = "dsh web: "@;
    let e = Seq::<char>::empty();
    let ut = u + tail;
    assert(pre + u + tail =~= pre + ut);
    assert((pre + ut).take(pre.len() as int) =~= pre);
    assert((pre + ut).skip(pre.len() as int) =~= ut);
    assert(ut[0] == u[0]);
    assert(trim_start_spec(ut) == ut);
    lemma_trim_end_after_prefix(u, tail);
    let w = trim_end_spec(tail);
    lemma_trim_end_is_prefix(tail);
    assert(trim_spec(ut) == u + w);
    lemma_tokens_word(u, w, e);
    assert(e + u =~= u);
    if w.len() == 0 {
        assert(tokens_acc(w, u) == seq![u]);
    } else {
        assert(w[0] == tail[0]);
        assert(w =~= seq![w[0]] + w.drop_first());
        lemma_tokens_break(w[0], w.drop_first(), u);
    }
    assert(tokens_spec(u + w)[0] == u);
}

/// A short commit id is the first seven characters of the full one (all of
/// it when shorter).
pub proof fn lemma_short_sha_is_prefix(full: Seq<char>)
    ensures
        short_sha_spec(full).len() == if full.len() < 7 { full.len() } else { 7 },
        forall|i: int| 0 <= i < short_sha_spec(full).len() ==> #[trigger] short_sha_spec(full)[i] == full[i],
{
}

/// Reads the child's startup line: the URL after `dsh web: `, without any
/// trailing annotation.
pub fn startup_url(line: &str) -> (r: Option<String>)
    ensures
        r.deep_view() == startup_url_spec(line@),
{
    match strip_prefix(line, "dsh web: ") {
        None => None,
        Some(rest) => {
            let u = trim(rest);
            let toks = whitespace_tokens(u);
            if toks.len() > 0 {
                let t = toks[0].clone();
                assert(t@ == toks.deep_view()[0]);
                Some(t)
            } else {
                Some(String::from_str(u))
            }
        },
    }
}

/// At most the first seven characters of a commit id.
pub open spec fn short_sha_spec(full: Seq<char>) -> Seq<char> {
    if full.len() <= 7 {
        full
    } else {
        full.take(7)
    }
}

/// Abbreviates a commit id to its first seven characters.
pub fn short_sha(full: &str) -> (r: String)
    ensures
        r@ == short_sha_spec(full@),
{
    let n = full.unicode_len();
    if n <= 7 {
        String::from_str(full)
    } else {
        String::from_str(full.substring_char(0, 7))
    }
}

/// The outcome of running git: its trimmed standard output on success,
/// its trimmed standard error otherwise.
pub open spec fn git_result_spec(success: bool, stdout: Seq<u8>, stderr: Seq<u8>) -> Result<
    Seq<char>,
    Seq<char>,
> {
    if success {
        Ok(trim_spec(lossy_text(stdout)))
    } else {
        Err(trim_spec(lossy_text(stderr)))
    }
}

/// Reads a finished git run from its exit status and raw output.
pub fn git_result(success: bool, stdout: &[u8], stderr: &[u8]) -> (r: Result<String, String>)
    ensures
        match (r, git_result_spec(success, stdout@, stderr@)) {
            (Ok(a), Ok(b)) => a@ == b,
            (Err(a), Err(b)) => a@ == b,
            _ => false,
        },
{
    if success {
        let t = utf8_lossy(stdout);
        Ok(String::from_str(trim(t.as_str())))
    } else {
        let t = utf8_lossy(stderr);
        Err(String::from_str(trim(t.as_str())))
    }
}

/// The remote of `git remote -v` output whose URL is `url`: the first line
/// whose second word is `url` names it with its first word.
pub open spec fn remote_named_spec(lines: Seq<Seq<char>>, url: Seq<char>) -> Option<Seq<char>>
    decreases lines.len(),
{
    if lines.len() == 0 {
        None
    } else {
        let toks = tokens_spec(lines[0]);
        if toks.len() >= 2 && toks[1] == url {
            Some(toks[0])
        } else {
            remote_named_spec(lines.drop_first(), url)
        }
    }
}

/// Resolves the remote name (normally `origin`) that a packaged clone uses
/// for the tracked URL, from `git remote -v` output.
pub fn tracked_remote_name(remotes: &str, url: &str) -> (r: Option<String>)
    ensures
        r.deep_view() == remote_named_spec(crate::text::lines_spec(remotes@), url@),
{
    let ls = crate::text::lines(remotes);
    let ghost lv = ls.deep_view();
    let mut k: usize = 0;
    assert(lv.skip(0) =~= lv);
    while k < ls.len()
        invariant
            lv == ls.deep_view(),
            lv == crate::text::lines_spec(remotes@),
            k <= ls.len(),
            remote_named_spec(lv, url@) == remote_named_spec(lv.skip(k as int), url@),
        decreases ls.len() - k,
    {
        assert(lv.skip(k as int)[0] == ls@[k as int]@);
        let toks = whitespace_tokens(ls[k].as_str());
        assert(toks.deep_view().len() == toks.len());
        if toks.len() >= 2 && crate::text::str_eq(toks[1].as_str(), url) {
            let name = toks[0].clone();
            assert(name@ == toks.deep_view()[0]);
            assert(toks.deep_view()[1] == toks@[1]@);
            return Some(name);
        }
        assert(lv.skip(k as int).drop_first() =~= lv.skip(k + 1));
        k = k + 1;
    }
    None
}

/// The toast that reports the detached updater's result, read from its
/// status file: title, body, and whether it succeeded.
pub open spec fn update_status_toast_spec(status: Seq<char>) -> (Seq<char>, Seq<char>, bool) {
    if json_bool_at(status, "/ok"@) == Some(true) {
        let sha = match json_str_at(status, "/sha"@) {
            Some(s) => s,
            None => "?"@,
        };
        let note = match json_str_at(status, "/note"@) {
            Some(s) => s,
            None => Seq::empty(),
        };
        let body = if note.len() == 0 {
            "Backend is now "@ + sha
        } else {
            "Backend is now "@ + sha + " ("@ + note + ")"@
        };
        ("dsh updated"@, body, true)
    } else {
        let stage = match json_str_at(status, "/stage"@) {
            Some(s) => s,
            None => "update"@,
        };
        let detail = match json_str_at(status, "/detail"@) {
            Some(s) => s,
            None => "unknown reason"@,
        };
        ("dsh update failed"@, stage + ": "@ + detail, false)
    }
}

/// Reads the updater's status file into the toast the next boot shows.
pub fn update_status_toast(status: &str) -> (r: (String, String, bool))
    ensures
        (r.0@, r.1@, r.2) == update_status_toast_spec(status@),
{
    match bool_at(status, "/ok") {
        Some(true) => {
            let sha = match str_at(status, "/sha") {
                Some(s) => s,
                None => String::from_str("?"),
            };
            let note = match str_at(status, "/note") {
                Some(s) => s,
                None => String::new(),
            };
            let body = if note.unicode_len() == 0 {
                String::from_str("Backend is now ").concat(sha.as_str())
            } else {
                String::from_str("Backend is now ").concat(sha.as_str()).concat(" (").concat(
                    note.as_str(),
                ).concat(")")
            };
            (String::from_str("dsh updated"), body, true)
        },
        _ => {
            let stage = match str_at(status, "/stage") {
                Some(s) => s,
                None => String::from_str("update"),
            };
            let detail = match str_at(status, "/detail") {
                Some(s) => s,
                None => String::from_str("unknown reason"),
            };
            (
                String::from_str("dsh update failed"),
                stage.concat(": ").concat(detail.as_str()),
                false,
            )
        },
    }
}

} // verus!
