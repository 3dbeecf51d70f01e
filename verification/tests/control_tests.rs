use dsh_desktop::control::{
    asked_port, body_len, download_dir_request, effective_download_dir, frame_base_url,
    header_step, html_response_head, json_response_head, panel_frame_base, parse_request_line,
    rect_report_applies, reveal_allowed, route, shell_frame_port, status_reason, window_action,
    DownloadDirRequest, Route, WindowAction, normalize_path,
};

#[test]
fn frame_port_from_environment() {
    assert_eq!(shell_frame_port(Some(" 9500 ")), 9500);
    assert_eq!(shell_frame_port(Some("0")), 9453);
    assert_eq!(shell_frame_port(Some("70000")), 9453);
    assert_eq!(shell_frame_port(Some("x")), 9453);
    assert_eq!(shell_frame_port(None), 9453);
    assert_eq!(frame_base_url(9453), "http://127.0.0.1:9453");
}

#[test]
fn request_head_parsing() {
    assert_eq!(parse_request_line("GET /health HTTP/1.1\r\n"), Some(("GET".to_string(), "/health".to_string())));
    assert_eq!(parse_request_line("POST"), Some(("POST".to_string(), "/".to_string())));
    assert_eq!(parse_request_line("   \r\n"), None);
    assert_eq!(header_step("Content-Length: 42\r\n", 0), Some(42));
    assert_eq!(header_step("content-length: abc\r\n", 9), Some(0));
    assert_eq!(header_step("Host: x\r\n", 7), Some(7));
    assert_eq!(header_step("CONTENT-LENGTH: 5\r\n", 7), Some(7));
    assert_eq!(header_step("\r\n", 7), None);
    assert_eq!(body_len(3_000_000), 2_000_000);
    assert_eq!(body_len(10), 10);
}

#[test]
fn routing() {
    assert_eq!(route("GET", "/health"), (Route::Health, String::new()));
    assert_eq!(route("GET", "/panel-config?dshPort=5000"), (Route::PanelConfig, "dshPort=5000".to_string()));
    assert_eq!(route("OPTIONS", "/anything?x"), (Route::Options, "x".to_string()));
    assert_eq!(route("DELETE", "/health"), (Route::Unknown, String::new()));
    assert_eq!(route("POST", "/rect"), (Route::PostRect, String::new()));
    assert_eq!(route("GET", "/rect"), (Route::GetRect, String::new()));
    assert_eq!(route("POST", "/dsh-upgrade"), (Route::DshUpgrade, String::new()));
    assert_eq!(route("POST", "/window?x=1"), (Route::Window, "x=1".to_string()));
    assert_eq!(route("GET", "/settings"), (Route::GetSettings, String::new()));
    assert_eq!(route("POST", "/settings"), (Route::PostSettings, String::new()));
}

#[test]
fn panel_discovery_with_identity() {
    assert_eq!(asked_port("a=1&dshPort=x&dshPort=5000"), Some(5000));
    assert_eq!(asked_port("dshPort=70000"), None);
    assert_eq!(asked_port(""), None);
    assert_eq!(panel_frame_base("dshPort=5000", 5000, "http://127.0.0.1:9453"), Some("http://127.0.0.1:9453".to_string()));
    assert_eq!(panel_frame_base("dshPort=5001", 5000, "http://127.0.0.1:9453"), None);
    assert_eq!(panel_frame_base("", 0, "http://127.0.0.1:9453"), None);
    assert!(rect_report_applies(5000, 5000));
    assert!(!rect_report_applies(0, 5000));
}

#[test]
fn window_actions() {
    assert_eq!(window_action("minimize"), WindowAction::Minimize);
    assert_eq!(window_action("toggle-max"), WindowAction::ToggleMaximize);
    assert_eq!(window_action("close"), WindowAction::Close);
    assert_eq!(window_action("fullscreen"), WindowAction::Unknown);
}

#[test]
fn download_folder_settings() {
    assert!(matches!(download_dir_request("  /tmp/x  "), DownloadDirRequest::Use(ref d) if d == "/tmp/x"));
    assert!(matches!(download_dir_request("   "), DownloadDirRequest::Clear));
    assert!(matches!(download_dir_request("rel/x"), DownloadDirRequest::NotAbsolute));
    assert_eq!(effective_download_dir(Some("/x"), true, "/d"), "/x");
    assert_eq!(effective_download_dir(Some("rel"), true, "/d"), "/d");
    assert_eq!(effective_download_dir(Some("/x"), false, "/d"), "/d");
    assert_eq!(effective_download_dir(None, true, "/d"), "/d");
}

#[test]
fn reveal_stays_inside_downloads() {
    assert!(reveal_allowed("/home/u/Downloads/f.zip", "/home/u/Downloads"));
    assert!(reveal_allowed("/home/u/Downloads", "/home/u/Downloads"));
    assert!(!reveal_allowed("/etc/passwd", "/home/u/Downloads"));
    assert!(!reveal_allowed("/home/u/Downloads2/x", "/home/u/Downloads"));
    assert!(!reveal_allowed("", "/home/u/Downloads"));
    assert!(!reveal_allowed("/home/u/Downloads/../x", "/home/u/Downloads"));
    assert!(!reveal_allowed("/home/u/Downloads/a/../../.ssh/id", "/home/u/Downloads"));
    assert!(reveal_allowed("/home/u/Downloads/a/../b.zip", "/home/u/Downloads"));
    assert!(reveal_allowed("/home/u/./Downloads//b.zip", "/home/u/Downloads/"));
}

#[test]
fn paths_resolve_lexically() {
    assert_eq!(normalize_path("/home/u/Downloads/../x"), "/home/u/x");
    assert_eq!(normalize_path("/a/./b//c/"), "/a/b/c");
    assert_eq!(normalize_path("/../../x"), "/x");
    assert_eq!(normalize_path("a/../../b"), "../b");
    assert_eq!(normalize_path("C:\\Users\\u\\..\\v"), "C:/Users/v");
    assert_eq!(normalize_path(""), "");
}

#[test]
fn response_heads() {
    assert_eq!(status_reason(404), "Not Found");
    assert_eq!(status_reason(403), "OK");
    assert_eq!(
        json_response_head(200, "{}"),
        "HTTP/1.1 200 OK\r\ncontent-type: application/json; charset=utf-8\r\ncontent-length: 2\r\naccess-control-allow-origin: *\r\naccess-control-allow-methods: GET, POST, OPTIONS\r\naccess-control-allow-headers: content-type\r\nconnection: close\r\n\r\n"
    );
    assert!(json_response_head(400, "{\"error\":\"x\"}").starts_with("HTTP/1.1 400 Bad Request\r\n"));
    assert_eq!(
        html_response_head("héllo"),
        "HTTP/1.1 200 OK\r\ncontent-type: text/html; charset=utf-8\r\ncontent-length: 6\r\naccess-control-allow-origin: *\r\nconnection: close\r\n\r\n"
    );
}
