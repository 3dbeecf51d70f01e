use dsh_desktop::pages::{
    download_toast_js, note_toast_js, restart_status_js, settings_menu_js, shellbar_html,
};

#[test]
fn shellbar_page_points_at_control_plane() {
    let page = shellbar_html();
    assert!(page.contains("var base='http://127.0.0.1:45331';"));
    assert!(!page.contains("__BASE__"));
    assert!(page.starts_with("<!doctype html>"));
}

#[test]
fn settings_menu_carries_label_and_base() {
    let js = settings_menu_js("Backend: packaged · 1.0.0 ✓");
    assert!(js.contains("var base='http://127.0.0.1:45331';"));
    assert!(js.contains("blab.textContent='Backend: packaged · 1.0.0 ✓';"));
    assert!(js.starts_with("(function(){var o=document.getElementById('dsh-shell-menu');if(o){closeMenu();return}"));
    assert!(js.ends_with("document.body.appendChild(back);document.body.appendChild(m);refresh();})()"));
}

#[test]
fn note_toast_quotes_its_text() {
    let js = note_toast_js("dsh updated", "Backend is now \"abc\"", true);
    assert!(js.contains("h.textContent=\"dsh updated\";"));
    assert!(js.contains("a.textContent=\"Backend is now \\\"abc\\\"\";"));
    assert!(js.contains("background:#1e1e1e"));
    let bad = note_toast_js("t", "b", false);
    assert!(bad.contains("background:#2a1a1a"));
    assert!(bad.contains("border:1px solid #5a2a2a"));
}

#[test]
fn download_toast_names_file_and_folder() {
    let js = download_toast_js(true, "/home/u/Downloads/x.zip");
    assert!(js.contains("var t=\"Download complete\",f=\"x.zip\",d=\"/home/u/Downloads\",p=\"/home/u/Downloads/x.zip\";"));
    assert!(js.contains("fetch('http://127.0.0.1:45331/reveal'"));
    let failed = download_toast_js(false, "/home/u/Downloads");
    assert!(failed.contains("var t=\"Download failed\",f=\"Downloads\",d=\"/home/u\""));
}

#[test]
fn restart_status_script() {
    assert_eq!(
        restart_status_js("Starting a fresh server…", false),
        "try{var s=document.getElementById('dsh-restart-sub');if(s){s.textContent=\"Starting a fresh server…\";s.style.color='#9a9a9a'}}catch(e){}"
    );
    assert!(restart_status_js("x", true).contains("'#e08080'"));
}

#[test]
fn quoted_text_stays_on_one_line() {
    let js = restart_status_js("a\\b\n\tc\u{1}\u{1f}é", true);
    assert!(js.contains(r#"s.textContent="a\\b\n\tc\u0001\u001fé";"#));
    assert!(!js.contains('\n'));
}
