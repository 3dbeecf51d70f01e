use dsh_desktop::filename::{
    download_filename, download_filename_for, is_valid_url, path_download_name, sanitize_filename,
    session_export_name, UrlParts,
};

#[test]
fn sanitize_replaces_unsafe_characters() {
    assert_eq!(sanitize_filename("my file (1).txt"), "my_file__1_.txt");
    assert_eq!(sanitize_filename("日本.zip"), "__.zip");
    assert_eq!(sanitize_filename(" a "), "_a_");
    assert_eq!(sanitize_filename("a/b\\c"), "a_b_c");
}

#[test]
fn sanitize_trims_dots_and_falls_back() {
    assert_eq!(sanitize_filename("..."), "download");
    assert_eq!(sanitize_filename(""), "download");
    assert_eq!(sanitize_filename("...abc..."), "abc");
    assert_eq!(sanitize_filename(".hidden"), "hidden");
}

#[test]
fn sanitize_caps_length() {
    let long = "a".repeat(200);
    assert_eq!(sanitize_filename(&long), "a".repeat(120));
    let cut_at_dot = format!("{}.{}", "b".repeat(119), "zip");
    let out = sanitize_filename(&cut_at_dot);
    assert_eq!(out.chars().count(), 120);
    assert!(out.ends_with('.'));
}

#[test]
fn sanitize_is_idempotent_on_samples() {
    for s in ["my file (1).txt", "...", "日本.zip", "x..y", "__init__.py"] {
        let once = sanitize_filename(s);
        assert_eq!(sanitize_filename(&once), once, "input {s:?}");
        assert!(once.chars().all(|c| c.is_ascii_alphanumeric() || "-_.".contains(c)));
        assert!(!once.starts_with('.'));
    }
}

#[test]
fn session_export_is_named_after_its_id() {
    let url = "http://127.0.0.1:4567/api/session.export?sessionId=abc%2F1&x=2";
    assert_eq!(download_filename_for(url), Some("dsh-session-abc_1.zip".to_string()));
    let plain = "http://127.0.0.1:4567/api/session.export?sessionId=s-42";
    assert_eq!(download_filename_for(plain), Some("dsh-session-s-42.zip".to_string()));
    let none = "http://127.0.0.1:4567/api/session.export";
    assert_eq!(download_filename_for(none), Some("dsh-session-download.zip".to_string()));
    let first = "http://h/api/session.export?sessionId=a&sessionId=b";
    assert_eq!(download_filename_for(first), Some("dsh-session-a.zip".to_string()));
}

#[test]
fn other_downloads_keep_last_segment() {
    assert_eq!(download_filename_for("https://example.com/files/report.pdf"), Some("report.pdf".to_string()));
    assert_eq!(download_filename_for("https://example.com/"), Some("download.bin".to_string()));
    assert_eq!(download_filename_for("https://example.com/dir/"), Some("download.bin".to_string()));
    assert_eq!(download_filename_for("https://example.com/download"), Some("download.bin".to_string()));
    assert_eq!(download_filename_for("https://example.com/a%20b.txt"), Some("a_20b.txt".to_string()));
    assert_eq!(download_filename_for("not a url"), None);
}

#[test]
fn parts_based_naming() {
    let export = UrlParts { path: "/api/session.export".to_string(), query: Some("sessionId=q%20z".to_string()) };
    assert_eq!(download_filename(&export), "dsh-session-q_z.zip");
    let file = UrlParts { path: "/x/y.zip".to_string(), query: None };
    assert_eq!(download_filename(&file), "y.zip");
    assert_eq!(path_download_name("relative"), "download.bin");
    let pairs = vec![("a".to_string(), "1".to_string()), ("sessionId".to_string(), "zz".to_string())];
    assert_eq!(session_export_name(&pairs), "dsh-session-zz.zip");
    assert_eq!(session_export_name(&Vec::new()), "dsh-session-download.zip");
    let bare = UrlParts { path: "/api/session.export".to_string(), query: None };
    assert_eq!(download_filename(&bare), "dsh-session-download.zip");
    assert_eq!(download_filename_for("http://127.0.0.1:4100/api/session.export").unwrap(), "dsh-session-download.zip");
}

#[test]
fn sanitize_is_idempotent_within_the_cap() {
    let long = format!("{}.", "a".repeat(119));
    for text in [long.as_str(), "..x y..", "日本.zip", "", "...", "a.b.c"] {
        assert!(text.chars().count() <= 120);
        let once = sanitize_filename(text);
        assert!(!once.ends_with('.'));
        assert_eq!(sanitize_filename(&once), once);
    }
}

#[test]
fn url_validity() {
    assert!(is_valid_url("https://github.com"));
    assert!(!is_valid_url("github.com"));
    assert!(!is_valid_url(""));
}

#[test]
fn download_names_stay_inside_the_folder() {
    let session = download_filename_for("https://x/api/session.export?sessionId=../../etc").unwrap();
    assert_eq!(session, "dsh-session-_.._etc.zip");
    let other = download_filename_for("https://x/files/..%2F..%2Fboot.ini").unwrap();
    assert_eq!(other, "_2F.._2Fboot.ini");
    for name in [&session, &other] {
        assert!(!name.is_empty());
        assert!(!name.starts_with('.'));
        assert!(!name.contains('/') && !name.contains('\\'));
    }
}
