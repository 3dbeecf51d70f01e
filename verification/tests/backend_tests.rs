use dsh_desktop::backend::{
    browser_requirement, built_cli_path, compat_verdict, compat_warning, launch_command, version_probe,
    dsh_bin, dsh_web_args, git_result, node_modules_path, packaged_backend_ready, short_sha,
    startup_url, tracked_remote_name, update_status_toast, BackendSource,
};

#[test]
fn backend_resolution_order() {
    assert_eq!(dsh_bin(Some("D:\\dsh.cmd"), Some("/c"), Some("/p/l.cmd"), Some("/s"), true), ("D:\\dsh.cmd".to_string(), BackendSource::Env));
    assert_eq!(dsh_bin(Some("   "), Some("/c"), Some("/p/l.cmd"), Some("/s"), true), ("/c".to_string(), BackendSource::Custom));
    assert_eq!(dsh_bin(None, Some(" "), Some("/p/l.cmd"), Some("/s"), true), ("/p/l.cmd".to_string(), BackendSource::Packaged));
    assert_eq!(dsh_bin(None, None, None, Some("/x/dsh.cmd"), true), ("/x/dsh.cmd".to_string(), BackendSource::Sibling));
    assert_eq!(dsh_bin(Some(""), None, None, None, true), ("dsh".to_string(), BackendSource::Path));
    assert_eq!(dsh_bin(None, None, None, None, false), (String::new(), BackendSource::FirstRun));
    assert_eq!(dsh_bin(Some(" x "), None, None, None, false), (" x ".to_string(), BackendSource::Env));
}

#[test]
fn source_labels() {
    assert_eq!(BackendSource::Env.label(), "env DSH_BIN");
    assert_eq!(BackendSource::Custom.label(), "custom dsh dir");
    assert_eq!(BackendSource::Packaged.label(), "packaged backend");
    assert_eq!(BackendSource::Sibling.label(), "sibling dsh.cmd");
    assert_eq!(BackendSource::Path.label(), "PATH");
    assert_eq!(BackendSource::FirstRun.label(), "first-run setup");
}

fn strings(v: &[&str]) -> Vec<String> {
    v.iter().map(|s| s.to_string()).collect()
}

#[test]
fn launch_and_probe_commands() {
    let l = launch_command("/c", BackendSource::Custom, 4100).unwrap();
    assert_eq!(l.program, "node");
    assert_eq!(l.args, strings(&["--import", "tsx/esm", "apps/cli/src/bin.ts", "web", "--no-open", "--port", "4100"]));
    assert_eq!(l.cwd, Some("/c".to_string()));
    let l = launch_command("/p/l.cmd", BackendSource::Packaged, 7).unwrap();
    assert_eq!(l.program, "/p/l.cmd");
    assert_eq!(l.args, strings(&["web", "--no-open", "--port", "7"]));
    assert_eq!(l.cwd, None);
    assert!(launch_command("", BackendSource::FirstRun, 7).is_none());

    let p = version_probe("/p/l.cmd", BackendSource::Packaged, Some("/p")).unwrap();
    assert_eq!((p.program.as_str(), p.cwd.as_deref()), ("node", Some("/p")));
    assert_eq!(p.args, strings(&["--import", "tsx/esm", "apps/cli/src/bin.ts", "--version"]));
    assert!(version_probe("/p/l.cmd", BackendSource::Packaged, None).is_none());
    let p = version_probe("/c", BackendSource::Custom, Some("/p")).unwrap();
    assert_eq!(p.cwd, Some("/c".to_string()));
    let p = version_probe("dsh", BackendSource::Path, None).unwrap();
    assert_eq!((p.program.as_str(), p.args.clone(), p.cwd), ("dsh", strings(&["--version"]), None));
    assert!(version_probe("", BackendSource::FirstRun, None).is_none());
}

#[test]
fn packaged_preflight() {
    assert_eq!(
        packaged_backend_ready("C:\\s", false, true),
        Err("packaged backend at C:\\s has no node_modules: run pnpm install inside it (or Upgrade dsh once running)".to_string())
    );
    assert_eq!(
        packaged_backend_ready("C:\\s", true, false),
        Err("packaged backend at C:\\s was never built (workspace lib/ missing): run pnpm run build inside it (or Upgrade dsh once running)".to_string())
    );
    assert_eq!(packaged_backend_ready("C:\\s", true, true), Ok(()));
    assert_eq!(node_modules_path("/s"), "/s/node_modules");
    assert_eq!(built_cli_path("/s"), "/s/apps/cli/lib/bin.js");
}

#[test]
fn requirement_from_package_json() {
    let pkg = r#"{"name":"dsh-browser","dsh":{"engines":{"backend":">=0.4.0"}}}"#;
    assert_eq!(browser_requirement(pkg), Some(">=0.4.0".to_string()));
    assert_eq!(browser_requirement(r#"{"dsh":{"engines":{"backend":4}}}"#), None);
    assert_eq!(browser_requirement("not json"), None);
    assert_eq!(browser_requirement("{}"), None);
}

#[test]
fn compat_verdicts() {
    let p = BackendSource::Packaged;
    assert_eq!(compat_verdict(p, Some(">=1.0.0"), Some("1.2.0")), ("Backend: packaged · 1.2.0 ✓".to_string(), None));
    assert_eq!(
        compat_verdict(p, Some(">=1.0.0"), Some("0.9.0")),
        (
            "Backend: packaged · 0.9.0 — browser needs >=1.0.0".to_string(),
            Some(("0.9.0".to_string(), ">=1.0.0".to_string()))
        )
    );
    assert_eq!(
        compat_verdict(BackendSource::Custom, Some(">=1.0.0"), Some("0.9.0")),
        (
            "Backend: custom · 0.9.0 — browser needs >=1.0.0".to_string(),
            Some(("0.9.0".to_string(), ">=1.0.0".to_string()))
        )
    );
    assert_eq!(compat_verdict(BackendSource::Path, Some(">=1.0.0"), Some("1.0.0")), ("Backend: PATH · 1.0.0 ✓".to_string(), None));
    assert_eq!(compat_verdict(p, Some(">=1.0.0"), None), ("Backend: packaged · version unknown".to_string(), None));
    assert_eq!(compat_verdict(p, Some("~1"), Some("1.0.0")), ("Backend: packaged · version unknown".to_string(), None));
    assert_eq!(compat_verdict(BackendSource::Env, None, Some("1.0.0")), ("Backend: env DSH_BIN · compatibility unknown".to_string(), None));
    let (title, body) = compat_warning("0.9.0", ">=1.0.0");
    assert_eq!(title, "Browser tab unavailable");
    assert_eq!(body, "Backend 0.9.0 is outside dsh-browser's tested range (needs >=1.0.0). Chat is unaffected.");
}

#[test]
fn startup_line() {
    assert_eq!(
        startup_url("dsh web: http://127.0.0.1:5000/?token=abc (LAN: http://192.168.1.2:5000)"),
        Some("http://127.0.0.1:5000/?token=abc".to_string())
    );
    assert_eq!(startup_url("dsh web:   http://x/  "), Some("http://x/".to_string()));
    assert_eq!(startup_url("dsh web:   "), Some(String::new()));
    assert_eq!(startup_url("listening"), None);
    assert_eq!(dsh_web_args(5000), vec!["web", "--no-open", "--port", "5000"]);
}

#[test]
fn shas_and_git_output() {
    assert_eq!(short_sha("0123456789abcdef"), "0123456");
    assert_eq!(short_sha("abc"), "abc");
    assert_eq!(git_result(true, b"  abc\n", b"ignored"), Ok("abc".to_string()));
    assert_eq!(git_result(false, b"", b"fatal: no\n"), Err("fatal: no".to_string()));
}

#[test]
fn remote_name_from_listing() {
    let listing = "upstream\thttps://a/b.git (fetch)\norigin\thttps://x/y.git (fetch)\norigin\thttps://x/y.git (push)\n";
    assert_eq!(tracked_remote_name(listing, "https://x/y.git"), Some("origin".to_string()));
    assert_eq!(tracked_remote_name(listing, "https://a/b.git"), Some("upstream".to_string()));
    assert_eq!(tracked_remote_name(listing, "https://other"), None);
    assert_eq!(tracked_remote_name("", "https://x/y.git"), None);
}

#[test]
fn updater_status_toasts() {
    assert_eq!(
        update_status_toast(r#"{"ok":true,"sha":"abc1234","note":"fast-forward"}"#),
        ("dsh updated".to_string(), "Backend is now abc1234 (fast-forward)".to_string(), true)
    );
    assert_eq!(
        update_status_toast(r#"{"ok":true}"#),
        ("dsh updated".to_string(), "Backend is now ?".to_string(), true)
    );
    assert_eq!(
        update_status_toast(r#"{"ok":false,"stage":"build","detail":"pnpm failed"}"#),
        ("dsh update failed".to_string(), "build: pnpm failed".to_string(), false)
    );
    assert_eq!(
        update_status_toast("garbage"),
        ("dsh update failed".to_string(), "update: unknown reason".to_string(), false)
    );
}
