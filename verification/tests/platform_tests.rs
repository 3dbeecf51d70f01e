use dsh_desktop::platform::{
    app_data_dir, bundled_browser_dir, default_downloads_dir, dev_shim_file, exe_dir_of,
    find_on_path, find_on_path_all, packaged_dir, packaged_launcher_file, portable_marker_file,
    portable_marker_path, portable_root, saved_file_parts, script_ext, settings_dir, settings_file,
    state_root_note, update_status_path, updater_file,
};

#[test]
fn fixed_names() {
    assert_eq!(portable_marker_file(), "portable.txt");
    assert_eq!(script_ext(), "cmd");
}

#[test]
fn portable_root_needs_the_marker() {
    assert_eq!(portable_root(Some("/opt/app"), true), Some("/opt/app/data".to_string()));
    assert_eq!(portable_root(Some("/opt/app"), false), None);
    assert_eq!(portable_root(None, true), None);
    assert_eq!(portable_marker_path("/opt/app"), "/opt/app/portable.txt");
    assert_eq!(exe_dir_of("/opt/app/dsh-desktop"), Some("/opt/app".to_string()));
}

#[test]
fn state_roots() {
    assert_eq!(app_data_dir(Some("/p/data"), Some("/l")), Some("/p/data".to_string()));
    assert_eq!(app_data_dir(None, Some("/l")), Some("/l/dsh-desktop".to_string()));
    assert_eq!(app_data_dir(None, None), None);
    assert_eq!(settings_dir(Some("/p/data"), Some("/r")), Some("/p/data".to_string()));
    assert_eq!(settings_dir(None, Some("/r")), Some("/r/dsh-desktop".to_string()));
}

#[test]
fn state_root_notes() {
    assert_eq!(state_root_note(Some("/p"), Some("/p")), "portable — state in /p");
    assert_eq!(state_root_note(None, Some("/l/dsh-desktop")), "per-user — state in /l/dsh-desktop");
    assert_eq!(state_root_note(None, None), "per-user — no state root resolved");
}

#[test]
fn children_of_the_state_root() {
    assert_eq!(packaged_dir(Some("/s")), Some("/s/dsh-src".to_string()));
    assert_eq!(bundled_browser_dir(Some("/s")), Some("/s/dsh-browser".to_string()));
    assert_eq!(update_status_path(Some("/s")), Some("/s/update-status.json".to_string()));
    assert_eq!(packaged_dir(None), None);
    assert_eq!(packaged_launcher_file("/s/dsh-src"), "/s/dsh-src/dsh-packaged.cmd");
    assert_eq!(updater_file("/s/dsh-src"), "/s/dsh-src/updater.cmd");
    assert_eq!(dev_shim_file("/bin"), "/bin/dsh.cmd");
    assert_eq!(default_downloads_dir(Some("/home/u"), "/tmp"), "/home/u/Downloads");
    assert_eq!(default_downloads_dir(None, "/tmp"), "/tmp");
    assert_eq!(settings_file(Some("/p/data"), Some("/r"), "/tmp"), "/p/data/settings.json");
    assert_eq!(settings_file(None, Some("/r"), "/tmp"), "/r/dsh-desktop/settings.json");
    assert_eq!(settings_file(None, None, "/tmp"), "/tmp/dsh-desktop-settings.json");
}

#[test]
fn where_listing() {
    let out = b"C:\\a\\pnpm\r\n\r\n  C:\\b\\pnpm.cmd  \r\n";
    assert_eq!(find_on_path_all(true, out), vec!["C:\\a\\pnpm".to_string(), "C:\\b\\pnpm.cmd".to_string()]);
    assert_eq!(find_on_path(true, out), Some("C:\\a\\pnpm".to_string()));
    assert!(find_on_path_all(false, out).is_empty());
    assert_eq!(find_on_path(true, b"\n  \n"), None);
}

#[test]
fn saved_file_parts_split_path() {
    assert_eq!(
        saved_file_parts("/home/u/Downloads/x.zip"),
        ("x.zip".to_string(), "/home/u/Downloads".to_string())
    );
    assert_eq!(saved_file_parts("/"), ("download".to_string(), String::new()));
}
