//! The loopback control plane's request handling: reading a request head,
//! routing, the panel's frame-server discovery, window actions, download
//! folder settings, and response heads.
use vstd::prelude::*;

use crate::text::{
    is_ws, lemma_decimal, lemma_digit_is_plain, lemma_first_index, lemma_parse_decimal,
    lemma_split_acc_plain, lemma_split_acc_joined, split_acc, trim_start_spec,
    lemma_trim_end_after_prefix, lemma_tokens_word, lemma_tokens_break, tokens_acc,
    decimal, decimal_spec, parse_u64, parse_u64_spec, split_char, split_once, split_once_spec,
    split_spec, str_eq, strip_prefix, strip_prefix_spec, tokens_spec, trim, trim_end,
    trim_end_spec, trim_spec, whitespace_tokens, push_char, lossy_text, utf8_lossy,
};

verus! {

/// Loopback address of the control plane.
pub open spec fn control_addr() -> Seq<char> {
    "127.0.0.1:45331"@
}

/// Frame-server port the shell pins for its own child unless told otherwise.
pub const DEFAULT_SHELL_FRAME_PORT: u16 = 9453;

/// Largest request body the control plane reads, in bytes.
pub const MAX_BODY_BYTES: usize = 2_000_000;

/// The frame-server port from `DSH_BROWSER_FRAME_PORT`: the trimmed value
/// as a non-zero `u16`, else the default.
pub open spec fn frame_port_spec(value: Option<Seq<char>>) -> u16 {
    match value {
        Some(v) => match parse_u64_spec(trim_spec(v)) {
            Some(n) => if 0 < n && n <= u16::MAX {
                n as u16
            } else {
                DEFAULT_SHELL_FRAME_PORT
            },
            None => DEFAULT_SHELL_FRAME_PORT,
        },
        None => DEFAULT_SHELL_FRAME_PORT,
    }
}

/// Chooses the frame-server port for the shell's child from the
/// environment value, if set.
pub fn shell_frame_port(value: Option<&str>) -> (r: u16)
    ensures
        r == frame_port_spec(value.deep_view()),
{
    match value {
        Some(v) => match parse_u64(trim(v)) {
            Some(n) => if 0 < n && n <= 65535 {
                n as u16
            } else {
                DEFAULT_SHELL_FRAME_PORT
            },
            None => DEFAULT_SHELL_FRAME_PORT,
        },
        None => DEFAULT_SHELL_FRAME_PORT,
    }
}

/// Base URL of a loopback frame server.
pub fn frame_base_url(port: u16) -> (r: String)
    ensures
        r@ == "http://127.0.0.1:"@ + decimal_spec(port as nat),
{
    String::from_str("http://127.0.0.1:").concat(decimal(port as u64).as_str())
}

/// Method and path of a request line: its first two words, the path `/`
/// when absent; `None` for a line with no words.
pub open spec fn request_line_spec(line: Seq<char>) -> Option<(Seq<char>, Seq<char>)> {
    let toks = tokens_spec(line);
    if toks.len() == 0 {
        None
    } else if toks.len() == 1 {
        Some((toks[0], "/"@))
    } else {
        Some((toks[0], toks[1]))
    }
}

/// A request line `METHOD PATH ...` gives its method and path, whatever
/// follows them; a line with a method alone asks for `/`.
pub proof fn lemma_request_line_reads_method_and_path(m: Seq<char>, p: Seq<char>, v: Seq<char>)
    requires
        m.len() > 0,
        p.len() > 0,
        forall|i: int| 0 <= i < m.len() ==> !is_ws(#[trigger] m[i]),
        forall|i: int| 0 <= i < p.len() ==> !is_ws(#[trigger] p[i]),
    ensures
        request_line_spec(m + " "@ + p + " "@ + v) == Some((m, p)),
        request_line_spec(m + " "@ + p) == Some((m, p)),
        request_line_spec(m) == Some((m, "/"@)),
{
    reveal_strlit(" ");
    let e = Seq::<char>::empty();
    // METHOD PATH rest
    let line = m + " "@ + p + " "@ + v;
    assert(line =~= m + (seq![' '] + (p + (seq![' '] + v))));
    lemma_tokens_word(m, seq![' '] + (p + (seq![' '] + v)), e);
    assert(e + m =~= m);
    lemma_tokens_break(' ', p + (seq![' '] + v), m);
    lemma_tokens_word(p, seq![' '] + v, e);
    assert(e + p =~= p);
    lemma_tokens_break(' ', v, p);
    assert(tokens_spec(line) =~= seq![m] + (seq![p] + tokens_acc(v, e)));
    // METHOD PATH
    let line2 = m + " "@ + p;
    assert(line2 =~= m + (seq![' '] + (p + e)));
    lemma_tokens_word(m, seq![' '] + (p + e), e);
    lemma_tokens_break(' ', p + e, m);
    lemma_tokens_word(p, e, e);
    assert(tokens_spec(line2) =~= seq![m] + seq![p]);
    // METHOD
    assert(m =~= m + e);
    lemma_tokens_word(m, e, e);
    assert(tokens_spec(m) =~= seq![m]);
}

/// Reads a request line.
pub fn parse_request_line(line: &str) -> (r: Option<(String, String)>)
    ensures
        r.deep_view() == request_line_spec(line@),
{
    let toks = whitespace_tokens(line);
    let ghost tv = toks.deep_view();
    if toks.len() == 0 {
        return None;
    }
    let method = toks[0].clone();
    assert(method@ == tv[0]);
    if toks.len() == 1 {
        return Some((method, String::from_str("/")));
    }
    let path = toks[1].clone();
    assert(path@ == tv[1]);
    Some((method, path))
}

/// The declared body length after a header line: a `Content-Length:` (or
/// `content-length:`) header sets it (0 when unreadable), any other header
/// keeps it; `None` for the blank line that ends the head.
pub open spec fn header_step_spec(line: Seq<char>, content_length: usize) -> Option<usize> {
    let t = trim_end_spec(line);
    if t.len() == 0 {
        None
    } else {
        let v = match strip_prefix_spec(t, "Content-Length:"@) {
            Some(v) => Some(v),
            None => strip_prefix_spec(t, "content-length:"@),
        };
        match v {
            Some(v) => Some(
                match parse_u64_spec(trim_spec(v)) {
                    Some(n) => if n <= usize::MAX {
                        n as usize
                    } else {
                        0
                    },
                    None => 0,
                },
            ),
            None => Some(content_length),
        }
    }
}

proof fn lemma_strip_own_prefix(p: Seq<char>, y: Seq<char>)
    ensures
        strip_prefix_spec(p + y, p) == Some(y),
{
    assert((p + y).take(p.len() as int) =~= p);
    assert((p + y).skip(p.len() as int) =~= y);
}

/// Both spellings of the length header read alike: whatever follows
/// `content-length:` is read exactly as if it followed `Content-Length:`.
pub proof fn lemma_header_spellings_agree(x: Seq<char>, content_length: usize)
    ensures
        header_step_spec("content-length:"@ + x, content_length) == header_step_spec(
            "Content-Length:"@ + x,
            content_length,
        ),
{
    reveal_strlit("content-length:");
    reveal_strlit("Content-Length:");
    let lo = "content-length:"@;
    let up = "Content-Length:"@;
    lemma_trim_end_after_prefix(lo, x);
    lemma_trim_end_after_prefix(up, x);
    let y = trim_end_spec(x);
    lemma_strip_own_prefix(lo, y);
    lemma_strip_own_prefix(up, y);
    assert((lo + y).take(up.len() as int)[0] == 'c');
    assert(strip_prefix_spec(lo + y, up) is None);
}

/// A `Content-Length` header carrying the decimal of `n` sets the length to
/// `n`, in either spelling and with or without a blank after the colon.
pub proof fn lemma_header_reads_length(n: usize, content_length: usize)
    ensures
        header_step_spec("Content-Length: "@ + decimal_spec(n as nat), content_length) == Some(n),
        header_step_spec("content-length: "@ + decimal_spec(n as nat), content_length) == Some(n),
        header_step_spec("Content-Length:"@ + decimal_spec(n as nat), content_length) == Some(n),
        header_step_spec("content-length:"@ + decimal_spec(n as nat), content_length) == Some(n),
{
    reveal_strlit("Content-Length: ");
    reveal_strlit("content-length: ");
    reveal_strlit("Content-Length:");
    reveal_strlit("content-length:");
    reveal_strlit(" ");
    let up = "Content-Length:"@;
    let d = decimal_spec(n as nat);
    lemma_decimal(n as nat);
    lemma_digit_is_plain(d[0]);
    lemma_digit_is_plain(d.last());
    lemma_parse_decimal(n as u64);
    // Without a blank.
    lemma_trim_end_after_prefix(up, d);
    assert(trim_end_spec(d) == d);
    lemma_strip_own_prefix(up, d);
    assert(trim_start_spec(d) == d);
    assert(trim_spec(d) == d);
    // With a blank.
    let sd = seq![' '] + d;
    assert("Content-Length: "@ + d =~= up + sd);
    assert(sd.last() == d.last());
    lemma_trim_end_after_prefix(up, sd);
    assert(trim_end_spec(sd) == sd);
    lemma_strip_own_prefix(up, sd);
    assert(sd.drop_first() =~= d);
    assert(trim_start_spec(sd) == trim_start_spec(d));
    assert(trim_spec(sd) == d);
    lemma_header_spellings_agree(d, content_length);
    lemma_header_spellings_agree(sd, content_length);
    assert("content-length: "@ + d =~= "content-length:"@ + sd);
}

/// Reads one header line of a request head.
pub fn header_step(line: &str, content_length: usize) -> (r: Option<usize>)
    ensures
        r == header_step_spec(line@, content_length),
{
    let t = trim_end(line);
    if t.unicode_len() == 0 {
        return None;
    }
    let v = match strip_prefix(t, "Content-Length:") {
        Some(v) => Some(v),
        None => strip_prefix(t, "content-length:"),
    };
    match v {
        Some(v) => Some(
            match parse_u64(trim(v)) {
                Some(n) => if n <= usize::MAX as u64 {
                    n as usize
                } else {
                    0
                },
                None => 0,
            },
        ),
        None => Some(content_length),
    }
}

/// How many body bytes to read for a declared length: at most
/// [`MAX_BODY_BYTES`].
pub fn body_len(content_length: usize) -> (r: usize)
    ensures
        r == if content_length < MAX_BODY_BYTES { content_length } else { MAX_BODY_BYTES },
{
    if content_length < MAX_BODY_BYTES {
        content_length
    } else {
        MAX_BODY_BYTES
    }
}

/// A request body as text, invalid UTF-8 replaced (`String::from_utf8_lossy`).
pub fn body_text(bytes: &[u8]) -> (r: String)
    ensures
        r@ == lossy_text(bytes@),
{
    utf8_lossy(bytes)
}

/// A `POST /cdp` names a method to call: it must not be empty.
pub fn cdp_method_valid(method: &str) -> (r: bool)
    ensures
        r == (method@.len() > 0),
{
    method.unicode_len() > 0
}

/// The endpoints of the control plane.
#[derive(Clone, Copy, Debug, PartialEq, Eq, Structural)]
pub enum Route {
    Options,
    Health,
    Shellbar,
    PanelConfig,
    State,
    GetRect,
    PostRect,
    Navigate,
    Eval,
    Cdp,
    DshEval,
    Show,
    Hide,
    ToastTest,
    Reveal,
    BrowseFolder,
    GetSettings,
    PostSettings,
    DshReload,
    DshRestart,
    DshCheck,
    DshUpgrade,
    RevealTab,
    SettingsMenu,
    DragStart,
    Window,
    Unknown,
}

/// The endpoint a `METHOD PATH` key names.
pub open spec fn route_of_key(key: Seq<char>) -> Route {
    if key == "GET /health"@ {
        Route::Health
    } else if key == "GET /shellbar"@ {
        Route::Shellbar
    } else if key == "GET /panel-config"@ {
        Route::PanelConfig
    } else if key == "GET /state"@ {
        Route::State
    } else if key == "GET /rect"@ {
        Route::GetRect
    } else if key == "POST /rect"@ {
        Route::PostRect
    } else if key == "POST /navigate"@ {
        Route::Navigate
    } else if key == "POST /eval"@ {
        Route::Eval
    } else if key == "POST /cdp"@ {
        Route::Cdp
    } else if key == "POST /dsh-eval"@ {
        Route::DshEval
    } else if key == "POST /show"@ {
        Route::Show
    } else if key == "POST /hide"@ {
        Route::Hide
    } else if key == "POST /toast-test"@ {
        Route::ToastTest
    } else if key == "POST /reveal"@ {
        Route::Reveal
    } else if key == "POST /browse-folder"@ {
        Route::BrowseFolder
    } else if key == "GET /settings"@ {
        Route::GetSettings
    } else if key == "POST /settings"@ {
        Route::PostSettings
    } else if key == "POST /dsh-reload"@ {
        Route::DshReload
    } else if key == "POST /dsh-restart"@ {
        Route::DshRestart
    } else if key == "POST /dsh-check"@ {
        Route::DshCheck
    } else if key == "POST /dsh-upgrade"@ {
        Route::DshUpgrade
    } else if key == "POST /reveal-tab"@ {
        Route::RevealTab
    } else if key == "POST /settings-menu"@ {
        Route::SettingsMenu
    } else if key == "POST /drag-start"@ {
        Route::DragStart
    } else if key == "POST /window"@ {
        Route::Window
    } else {
        Route::Unknown
    }
}

/// Two texts differ when their lengths differ or some character does.
proof fn lemma_keys_differ(a: Seq<char>, b: Seq<char>, i: int)
    requires
        a.len() != b.len() || (0 <= i < a.len() && i < b.len() && a[i] != b[i]),
    ensures
        a != b,
{
}

/// The documented `METHOD PATH` of each endpoint (empty for the preflight
/// and for unknown requests, which no single key names).
pub open spec fn endpoint_key(r: Route) -> Seq<char> {
    match r {
        Route::Health => "GET /health"@,
        Route::Shellbar => "GET /shellbar"@,
        Route::PanelConfig => "GET /panel-config"@,
        Route::State => "GET /state"@,
        Route::GetRect => "GET /rect"@,
        Route::PostRect => "POST /rect"@,
        Route::Navigate => "POST /navigate"@,
        Route::Eval => "POST /eval"@,
        Route::Cdp => "POST /cdp"@,
        Route::DshEval => "POST /dsh-eval"@,
        Route::Show => "POST /show"@,
        Route::Hide => "POST /hide"@,
        Route::ToastTest => "POST /toast-test"@,
        Route::Reveal => "POST /reveal"@,
        Route::BrowseFolder => "POST /browse-folder"@,
        Route::GetSettings => "GET /settings"@,
        Route::PostSettings => "POST /settings"@,
        Route::DshReload => "POST /dsh-reload"@,
        Route::DshRestart => "POST /dsh-restart"@,
        Route::DshCheck => "POST /dsh-check"@,
        Route::DshUpgrade => "POST /dsh-upgrade"@,
        Route::RevealTab => "POST /reveal-tab"@,
        Route::SettingsMenu => "POST /settings-menu"@,
        Route::DragStart => "POST /drag-start"@,
        Route::Window => "POST /window"@,
        Route::Options => Seq::empty(),
        Route::Unknown => Seq::empty(),
    }
}

/// Every endpoint is reached by its own documented key (`POST /show` shows
/// the overlay, `POST /hide` hides it, and so on).
pub proof fn lemma_each_key_reaches_its_endpoint(r: Route)
    requires
        r != Route::Options,
        r != Route::Unknown,
    ensures
        route_of_key(endpoint_key(r)) == r,
{
    match r {
        Route::Health => {
            reveal_strlit("GET /health");
        },
        Route::Shellbar => {
            reveal_strlit("GET /shellbar");
            reveal_strlit("GET /health");
            assert("GET /shellbar"@ != "GET /health"@) by { lemma_keys_differ("GET /shellbar"@, "GET /health"@, 0); }
        },
        Route::PanelConfig => {
            reveal_strlit("GET /panel-config");
            reveal_strlit("GET /health");
            assert("GET /panel-config"@ != "GET /health"@) by { lemma_keys_differ("GET /panel-config"@, "GET /health"@, 0); }
            reveal_strlit("GET /shellbar");
            assert("GET /panel-config"@ != "GET /shellbar"@) by { lemma_keys_differ("GET /panel-config"@, "GET /shellbar"@, 0); }
        },
        Route::State => {
            reveal_strlit("GET /state");
            reveal_strlit("GET /health");
            assert("GET /state"@ != "GET /health"@) by { lemma_keys_differ("GET /state"@, "GET /health"@, 0); }
            reveal_strlit("GET /shellbar");
            assert("GET /state"@ != "GET /shellbar"@) by { lemma_keys_differ("GET /state"@, "GET /shellbar"@, 0); }
            reveal_strlit("GET /panel-config");
            assert("GET /state"@ != "GET /panel-config"@) by { lemma_keys_differ("GET /state"@, "GET /panel-config"@, 0); }
        },
        Route::GetRect => {
            reveal_strlit("GET /rect");
            reveal_strlit("GET /health");
            assert("GET /rect"@ != "GET /health"@) by { lemma_keys_differ("GET /rect"@, "GET /health"@, 0); }
            reveal_strlit("GET /shellbar");
            assert("GET /rect"@ != "GET /shellbar"@) by { lemma_keys_differ("GET /rect"@, "GET /shellbar"@, 0); }
            reveal_strlit("GET /panel-config");
            assert("GET /rect"@ != "GET /panel-config"@) by { lemma_keys_differ("GET /rect"@, "GET /panel-config"@, 0); }
            reveal_strlit("GET /state");
            assert("GET /rect"@ != "GET /state"@) by { lemma_keys_differ("GET /rect"@, "GET /state"@, 0); }
        },
        Route::PostRect => {
            reveal_strlit("POST /rect");
            reveal_strlit("GET /health");
            assert("POST /rect"@ != "GET /health"@) by { lemma_keys_differ("POST /rect"@, "GET /health"@, 0); }
            reveal_strlit("GET /shellbar");
            assert("POST /rect"@ != "GET /shellbar"@) by { lemma_keys_differ("POST /rect"@, "GET /shellbar"@, 0); }
            reveal_strlit("GET /panel-config");
            assert("POST /rect"@ != "GET /panel-config"@) by { lemma_keys_differ("POST /rect"@, "GET /panel-config"@, 0); }
            reveal_strlit("GET /state");
            assert("POST /rect"@ != "GET /state"@) by { lemma_keys_differ("POST /rect"@, "GET /state"@, 0); }
            reveal_strlit("GET /rect");
            assert("POST /rect"@ != "GET /rect"@) by { lemma_keys_differ("POST /rect"@, "GET /rect"@, 0); }
        },
        Route::Navigate => {
            reveal_strlit("POST /navigate");
            reveal_strlit("GET /health");
            assert("POST /navigate"@ != "GET /health"@) by { lemma_keys_differ("POST /navigate"@, "GET /health"@, 0); }
            reveal_strlit("GET /shellbar");
            assert("POST /navigate"@ != "GET /shellbar"@) by { lemma_keys_differ("POST /navigate"@, "GET /shellbar"@, 0); }
            reveal_strlit("GET /panel-config");
            assert("POST /navigate"@ != "GET /panel-config"@) by { lemma_keys_differ("POST /navigate"@, "GET /panel-config"@, 0); }
            reveal_strlit("GET /state");
            assert("POST /navigate"@ != "GET /state"@) by { lemma_keys_differ("POST /navigate"@, "GET /state"@, 0); }
            reveal_strlit("GET /rect");
            assert("POST /navigate"@ != "GET /rect"@) by { lemma_keys_differ("POST /navigate"@, "GET /rect"@, 0); }
            reveal_strlit("POST /rect");
            assert("POST /navigate"@ != "POST /rect"@) by { lemma_keys_differ("POST /navigate"@, "POST /rect"@, 0); }
        },
        Route::Eval => {
            reveal_strlit("POST /eval");
            reveal_strlit("GET /health");
            assert("POST /eval"@ != "GET /health"@) by { lemma_keys_differ("POST /eval"@, "GET /health"@, 0); }
            reveal_strlit("GET /shellbar");
            assert("POST /eval"@ != "GET /shellbar"@) by { lemma_keys_differ("POST /eval"@, "GET /shellbar"@, 0); }
            reveal_strlit("GET /panel-config");
            assert("POST /eval"@ != "GET /panel-config"@) by { lemma_keys_differ("POST /eval"@, "GET /panel-config"@, 0); }
            reveal_strlit("GET /state");
            assert("POST /eval"@ != "GET /state"@) by { lemma_keys_differ("POST /eval"@, "GET /state"@, 0); }
            reveal_strlit("GET /rect");
            assert("POST /eval"@ != "GET /rect"@) by { lemma_keys_differ("POST /eval"@, "GET /rect"@, 0); }
            reveal_strlit("POST /rect");
            assert("POST /eval"@ != "POST /rect"@) by { lemma_keys_differ("POST /eval"@, "POST /rect"@, 6); }
            reveal_strlit("POST /navigate");
            assert("POST /eval"@ != "POST /navigate"@) by { lemma_keys_differ("POST /eval"@, "POST /navigate"@, 0); }
        },
        Route::Cdp => {
            reveal_strlit("POST /cdp");
            reveal_strlit("GET /health");
            assert("POST /cdp"@ != "GET /health"@) by { lemma_keys_differ("POST /cdp"@, "GET /health"@, 0); }
            reveal_strlit("GET /shellbar");
            assert("POST /cdp"@ != "GET /shellbar"@) by { lemma_keys_differ("POST /cdp"@, "GET /shellbar"@, 0); }
            reveal_strlit("GET /panel-config");
            assert("POST /cdp"@ != "GET /panel-config"@) by { lemma_keys_differ("POST /cdp"@, "GET /panel-config"@, 0); }
            reveal_strlit("GET /state");
            assert("POST /cdp"@ != "GET /state"@) by { lemma_keys_differ("POST /cdp"@, "GET /state"@, 0); }
            reveal_strlit("GET /rect");
            assert("POST /cdp"@ != "GET /rect"@) by { lemma_keys_differ("POST /cdp"@, "GET /rect"@, 0); }
            reveal_strlit("POST /rect");
            assert("POST /cdp"@ != "POST /rect"@) by { lemma_keys_differ("POST /cdp"@, "POST /rect"@, 0); }
            reveal_strlit("POST /navigate");
            assert("POST /cdp"@ != "POST /navigate"@) by { lemma_keys_differ("POST /cdp"@, "POST /navigate"@, 0); }
            reveal_strlit("POST /eval");
            assert("POST /cdp"@ != "POST /eval"@) by { lemma_keys_differ("POST /cdp"@, "POST /eval"@, 0); }
        },
        Route::DshEval => {
            reveal_strlit("POST /dsh-eval");
            reveal_strlit("GET /health");
            assert("POST /dsh-eval"@ != "GET /health"@) by { lemma_keys_differ("POST /dsh-eval"@, "GET /health"@, 0); }
            reveal_strlit("GET /shellbar");
            assert("POST /dsh-eval"@ != "GET /shellbar"@) by { lemma_keys_differ("POST /dsh-eval"@, "GET /shellbar"@, 0); }
            reveal_strlit("GET /panel-config");
            assert("POST /dsh-eval"@ != "GET /panel-config"@) by { lemma_keys_differ("POST /dsh-eval"@, "GET /panel-config"@, 0); }
            reveal_strlit("GET /state");
            assert("POST /dsh-eval"@ != "GET /state"@) by { lemma_keys_differ("POST /dsh-eval"@, "GET /state"@, 0); }
            reveal_strlit("GET /rect");
            assert("POST /dsh-eval"@ != "GET /rect"@) by { lemma_keys_differ("POST /dsh-eval"@, "GET /rect"@, 0); }
            reveal_strlit("POST /rect");
            assert("POST /dsh-eval"@ != "POST /rect"@) by { lemma_keys_differ("POST /dsh-eval"@, "POST /rect"@, 0); }
            reveal_strlit("POST /navigate");
            assert("POST /dsh-eval"@ != "POST /navigate"@) by { lemma_keys_differ("POST /dsh-eval"@, "POST /navigate"@, 6); }
            reveal_strlit("POST /eval");
            assert("POST /dsh-eval"@ != "POST /eval"@) by { lemma_keys_differ("POST /dsh-eval"@, "POST /eval"@, 0); }
            reveal_strlit("POST /cdp");
            assert("POST /dsh-eval"@ != "POST /cdp"@) by { lemma_keys_differ("POST /dsh-eval"@, "POST /cdp"@, 0); }
        },
        Route::Show => {
            reveal_strlit("POST /show");
            reveal_strlit("GET /health");
            assert("POST /show"@ != "GET /health"@) by { lemma_keys_differ("POST /show"@, "GET /health"@, 0); }
            reveal_strlit("GET /shellbar");
            assert("POST /show"@ != "GET /shellbar"@) by { lemma_keys_differ("POST /show"@, "GET /shellbar"@, 0); }
            reveal_strlit("GET /panel-config");
            assert("POST /show"@ != "GET /panel-config"@) by { lemma_keys_differ("POST /show"@, "GET /panel-config"@, 0); }
            reveal_strlit("GET /state");
            assert("POST /show"@ != "GET /state"@) by { lemma_keys_differ("POST /show"@, "GET /state"@, 0); }
            reveal_strlit("GET /rect");
            assert("POST /show"@ != "GET /rect"@) by { lemma_keys_differ("POST /show"@, "GET /rect"@, 0); }
            reveal_strlit("POST /rect");
            assert("POST /show"@ != "POST /rect"@) by { lemma_keys_differ("POST /show"@, "POST /rect"@, 6); }
            reveal_strlit("POST /navigate");
            assert("POST /show"@ != "POST /navigate"@) by { lemma_keys_differ("POST /show"@, "POST /navigate"@, 0); }
            reveal_strlit("POST /eval");
            assert("POST /show"@ != "POST /eval"@) by { lemma_keys_differ("POST /show"@, "POST /eval"@, 6); }
            reveal_strlit("POST /cdp");
            assert("POST /show"@ != "POST /cdp"@) by { lemma_keys_differ("POST /show"@, "POST /cdp"@, 0); }
            reveal_strlit("POST /dsh-eval");
            assert("POST /show"@ != "POST /dsh-eval"@) by { lemma_keys_differ("POST /show"@, "POST /dsh-eval"@, 0); }
        },
        Route::Hide => {
            reveal_strlit("POST /hide");
            reveal_strlit("GET /health");
            assert("POST /hide"@ != "GET /health"@) by { lemma_keys_differ("POST /hide"@, "GET /health"@, 0); }
            reveal_strlit("GET /shellbar");
            assert("POST /hide"@ != "GET /shellbar"@) by { lemma_keys_differ("POST /hide"@, "GET /shellbar"@, 0); }
            reveal_strlit("GET /panel-config");
            assert("POST /hide"@ != "GET /panel-config"@) by { lemma_keys_differ("POST /hide"@, "GET /panel-config"@, 0); }
            reveal_strlit("GET /state");
            assert("POST /hide"@ != "GET /state"@) by { lemma_keys_differ("POST /hide"@, "GET /state"@, 0); }
            reveal_strlit("GET /rect");
            assert("POST /hide"@ != "GET /rect"@) by { lemma_keys_differ("POST /hide"@, "GET /rect"@, 0); }
            reveal_strlit("POST /rect");
            assert("POST /hide"@ != "POST /rect"@) by { lemma_keys_differ("POST /hide"@, "POST /rect"@, 6); }
            reveal_strlit("POST /navigate");
            assert("POST /hide"@ != "POST /navigate"@) by { lemma_keys_differ("POST /hide"@, "POST /navigate"@, 0); }
            reveal_strlit("POST /eval");
            assert("POST /hide"@ != "POST /eval"@) by { lemma_keys_differ("POST /hide"@, "POST /eval"@, 6); }
            reveal_strlit("POST /cdp");
            assert("POST /hide"@ != "POST /cdp"@) by { lemma_keys_differ("POST /hide"@, "POST /cdp"@, 0); }
            reveal_strlit("POST /dsh-eval");
            assert("POST /hide"@ != "POST /dsh-eval"@) by { lemma_keys_differ("POST /hide"@, "POST /dsh-eval"@, 0); }
            reveal_strlit("POST /show");
            assert("POST /hide"@ != "POST /show"@) by { lemma_keys_differ("POST /hide"@, "POST /show"@, 6); }
        },
        Route::ToastTest => {
            reveal_strlit("POST /toast-test");
            reveal_strlit("GET /health");
            assert("POST /toast-test"@ != "GET /health"@) by { lemma_keys_differ("POST /toast-test"@, "GET /health"@, 0); }
            reveal_strlit("GET /shellbar");
            assert("POST /toast-test"@ != "GET /shellbar"@) by { lemma_keys_differ("POST /toast-test"@, "GET /shellbar"@, 0); }
            reveal_strlit("GET /panel-config");
            assert("POST /toast-test"@ != "GET /panel-config"@) by { lemma_keys_differ("POST /toast-test"@, "GET /panel-config"@, 0); }
            reveal_strlit("GET /state");
            assert("POST /toast-test"@ != "GET /state"@) by { lemma_keys_differ("POST /toast-test"@, "GET /state"@, 0); }
            reveal_strlit("GET /rect");
            assert("POST /toast-test"@ != "GET /rect"@) by { lemma_keys_differ("POST /toast-test"@, "GET /rect"@, 0); }
            reveal_strlit("POST /rect");
            assert("POST /toast-test"@ != "POST /rect"@) by { lemma_keys_differ("POST /toast-test"@, "POST /rect"@, 0); }
            reveal_strlit("POST /navigate");
            assert("POST /toast-test"@ != "POST /navigate"@) by { lemma_keys_differ("POST /toast-test"@, "POST /navigate"@, 0); }
            reveal_strlit("POST /eval");
            assert("POST /toast-test"@ != "POST /eval"@) by { lemma_keys_differ("POST /toast-test"@, "POST /eval"@, 0); }
            reveal_strlit("POST /cdp");
            assert("POST /toast-test"@ != "POST /cdp"@) by { lemma_keys_differ("POST /toast-test"@, "POST /cdp"@, 0); }
            reveal_strlit("POST /dsh-eval");
            assert("POST /toast-test"@ != "POST /dsh-eval"@) by { lemma_keys_differ("POST /toast-test"@, "POST /dsh-eval"@, 0); }
            reveal_strlit("POST /show");
            assert("POST /toast-test"@ != "POST /show"@) by { lemma_keys_differ("POST /toast-test"@, "POST /show"@, 0); }
            reveal_strlit("POST /hide");
            assert("POST /toast-test"@ != "POST /hide"@) by { lemma_keys_differ("POST /toast-test"@, "POST /hide"@, 0); }
        },
        Route::Reveal => {
            reveal_strlit("POST /reveal");
            reveal_strlit("GET /health");
            assert("POST /reveal"@ != "GET /health"@) by { lemma_keys_differ("POST /reveal"@, "GET /health"@, 0); }
            reveal_strlit("GET /shellbar");
            assert("POST /reveal"@ != "GET /shellbar"@) by { lemma_keys_differ("POST /reveal"@, "GET /shellbar"@, 0); }
            reveal_strlit("GET /panel-config");
            assert("POST /reveal"@ != "GET /panel-config"@) by { lemma_keys_differ("POST /reveal"@, "GET /panel-config"@, 0); }
            reveal_strlit("GET /state");
            assert("POST /reveal"@ != "GET /state"@) by { lemma_keys_differ("POST /reveal"@, "GET /state"@, 0); }
            reveal_strlit("GET /rect");
            assert("POST /reveal"@ != "GET /rect"@) by { lemma_keys_differ("POST /reveal"@, "GET /rect"@, 0); }
            reveal_strlit("POST /rect");
            assert("POST /reveal"@ != "POST /rect"@) by { lemma_keys_differ("POST /reveal"@, "POST /rect"@, 0); }
            reveal_strlit("POST /navigate");
            assert("POST /reveal"@ != "POST /navigate"@) by { lemma_keys_differ("POST /reveal"@, "POST /navigate"@, 0); }
            reveal_strlit("POST /eval");
            assert("POST /reveal"@ != "POST /eval"@) by { lemma_keys_differ("POST /reveal"@, "POST /eval"@, 0); }
            reveal_strlit("POST /cdp");
            assert("POST /reveal"@ != "POST /cdp"@) by { lemma_keys_differ("POST /reveal"@, "POST /cdp"@, 0); }
            reveal_strlit("POST /dsh-eval");
            assert("POST /reveal"@ != "POST /dsh-eval"@) by { lemma_keys_differ("POST /reveal"@, "POST /dsh-eval"@, 0); }
            reveal_strlit("POST /show");
            assert("POST /reveal"@ != "POST /show"@) by { lemma_keys_differ("POST /reveal"@, "POST /show"@, 0); }
            reveal_strlit("POST /hide");
            assert("POST /reveal"@ != "POST /hide"@) by { lemma_keys_differ("POST /reveal"@, "POST /hide"@, 0); }
            reveal_strlit("POST /toast-test");
            assert("POST /reveal"@ != "POST /toast-test"@) by { lemma_keys_differ("POST /reveal"@, "POST /toast-test"@, 0); }
        },
        Route::BrowseFolder => {
            reveal_strlit("POST /browse-folder");
            reveal_strlit("GET /health");
            assert("POST /browse-folder"@ != "GET /health"@) by { lemma_keys_differ("POST /browse-folder"@, "GET /health"@, 0); }
            reveal_strlit("GET /shellbar");
            assert("POST /browse-folder"@ != "GET /shellbar"@) by { lemma_keys_differ("POST /browse-folder"@, "GET /shellbar"@, 0); }
            reveal_strlit("GET /panel-config");
            assert("POST /browse-folder"@ != "GET /panel-config"@) by { lemma_keys_differ("POST /browse-folder"@, "GET /panel-config"@, 0); }
            reveal_strlit("GET /state");
            assert("POST /browse-folder"@ != "GET /state"@) by { lemma_keys_differ("POST /browse-folder"@, "GET /state"@, 0); }
            reveal_strlit("GET /rect");
            assert("POST /browse-folder"@ != "GET /rect"@) by { lemma_keys_differ("POST /browse-folder"@, "GET /rect"@, 0); }
            reveal_strlit("POST /rect");
            assert("POST /browse-folder"@ != "POST /rect"@) by { lemma_keys_differ("POST /browse-folder"@, "POST /rect"@, 0); }
            reveal_strlit("POST /navigate");
            assert("POST /browse-folder"@ != "POST /navigate"@) by { lemma_keys_differ("POST /browse-folder"@, "POST /navigate"@, 0); }
            reveal_strlit("POST /eval");
            assert("POST /browse-folder"@ != "POST /eval"@) by { lemma_keys_differ("POST /browse-folder"@, "POST /eval"@, 0); }
            reveal_strlit("POST /cdp");
            assert("POST /browse-folder"@ != "POST /cdp"@) by { lemma_keys_differ("POST /browse-folder"@, "POST /cdp"@, 0); }
            reveal_strlit("POST /dsh-eval");
            assert("POST /browse-folder"@ != "POST /dsh-eval"@) by { lemma_keys_differ("POST /browse-folder"@, "POST /dsh-eval"@, 0); }
            reveal_strlit("POST /show");
            assert("POST /browse-folder"@ != "POST /show"@) by { lemma_keys_differ("POST /browse-folder"@, "POST /show"@, 0); }
            reveal_strlit("POST /hide");
            assert("POST /browse-folder"@ != "POST /hide"@) by { lemma_keys_differ("POST /browse-folder"@, "POST /hide"@, 0); }
            reveal_strlit("POST /toast-test");
            assert("POST /browse-folder"@ != "POST /toast-test"@) by { lemma_keys_differ("POST /browse-folder"@, "POST /toast-test"@, 0); }
            reveal_strlit("POST /reveal");
            assert("POST /browse-folder"@ != "POST /reveal"@) by { lemma_keys_differ("POST /browse-folder"@, "POST /reveal"@, 0); }
        },
        Route::GetSettings => {
            reveal_strlit("GET /settings");
            reveal_strlit("GET /health");
            assert("GET /settings"@ != "GET /health"@) by { lemma_keys_differ("GET /settings"@, "GET /health"@, 0); }
            reveal_strlit("GET /shellbar");
            assert("GET /settings"@ != "GET /shellbar"@) by { lemma_keys_differ("GET /settings"@, "GET /shellbar"@, 6); }
            reveal_strlit("GET /panel-config");
            assert("GET /settings"@ != "GET /panel-config"@) by { lemma_keys_differ("GET /settings"@, "GET /panel-config"@, 0); }
            reveal_strlit("GET /state");
            assert("GET /settings"@ != "GET /state"@) by { lemma_keys_differ("GET /settings"@, "GET /state"@, 0); }
            reveal_strlit("GET /rect");
            assert("GET /settings"@ != "GET /rect"@) by { lemma_keys_differ("GET /settings"@, "GET /rect"@, 0); }
            reveal_strlit("POST /rect");
            assert("GET /settings"@ != "POST /rect"@) by { lemma_keys_differ("GET /settings"@, "POST /rect"@, 0); }
            reveal_strlit("POST /navigate");
            assert("GET /settings"@ != "POST /navigate"@) by { lemma_keys_differ("GET /settings"@, "POST /navigate"@, 0); }
            reveal_strlit("POST /eval");
            assert("GET /settings"@ != "POST /eval"@) by { lemma_keys_differ("GET /settings"@, "POST /eval"@, 0); }
            reveal_strlit("POST /cdp");
            assert("GET /settings"@ != "POST /cdp"@) by { lemma_keys_differ("GET /settings"@, "POST /cdp"@, 0); }
            reveal_strlit("POST /dsh-eval");
            assert("GET /settings"@ != "POST /dsh-eval"@) by { lemma_keys_differ("GET /settings"@, "POST /dsh-eval"@, 0); }
            reveal_strlit("POST /show");
            assert("GET /settings"@ != "POST /show"@) by { lemma_keys_differ("GET /settings"@, "POST /show"@, 0); }
            reveal_strlit("POST /hide");
            assert("GET /settings"@ != "POST /hide"@) by { lemma_keys_differ("GET /settings"@, "POST /hide"@, 0); }
            reveal_strlit("POST /toast-test");
            assert("GET /settings"@ != "POST /toast-test"@) by { lemma_keys_differ("GET /settings"@, "POST /toast-test"@, 0); }
            reveal_strlit("POST /reveal");
            assert("GET /settings"@ != "POST /reveal"@) by { lemma_keys_differ("GET /settings"@, "POST /reveal"@, 0); }
            reveal_strlit("POST /browse-folder");
            assert("GET /settings"@ != "POST /browse-folder"@) by { lemma_keys_differ("GET /settings"@, "POST /browse-folder"@, 0); }
        },
        Route::PostSettings => {
            reveal_strlit("POST /settings");
            reveal_strlit("GET /health");
            assert("POST /settings"@ != "GET /health"@) by { lemma_keys_differ("POST /settings"@, "GET /health"@, 0); }
            reveal_strlit("GET /shellbar");
            assert("POST /settings"@ != "GET /shellbar"@) by { lemma_keys_differ("POST /settings"@, "GET /shellbar"@, 0); }
            reveal_strlit("GET /panel-config");
            assert("POST /settings"@ != "GET /panel-config"@) by { lemma_keys_differ("POST /settings"@, "GET /panel-config"@, 0); }
            reveal_strlit("GET /state");
            assert("POST /settings"@ != "GET /state"@) by { lemma_keys_differ("POST /settings"@, "GET /state"@, 0); }
            reveal_strlit("GET /rect");
            assert("POST /settings"@ != "GET /rect"@) by { lemma_keys_differ("POST /settings"@, "GET /rect"@, 0); }
            reveal_strlit("POST /rect");
            assert("POST /settings"@ != "POST /rect"@) by { lemma_keys_differ("POST /settings"@, "POST /rect"@, 0); }
            reveal_strlit("POST /navigate");
            assert("POST /settings"@ != "POST /navigate"@) by { lemma_keys_differ("POST /settings"@, "POST /navigate"@, 6); }
            reveal_strlit("POST /eval");
            assert("POST /settings"@ != "POST /eval"@) by { lemma_keys_differ("POST /settings"@, "POST /eval"@, 0); }
            reveal_strlit("POST /cdp");
            assert("POST /settings"@ != "POST /cdp"@) by { lemma_keys_differ("POST /settings"@, "POST /cdp"@, 0); }
            reveal_strlit("POST /dsh-eval");
            assert("POST /settings"@ != "POST /dsh-eval"@) by { lemma_keys_differ("POST /settings"@, "POST /dsh-eval"@, 6); }
            reveal_strlit("POST /show");
            assert("POST /settings"@ != "POST /show"@) by { lemma_keys_differ("POST /settings"@, "POST /show"@, 0); }
            reveal_strlit("POST /hide");
            assert("POST /settings"@ != "POST /hide"@) by { lemma_keys_differ("POST /settings"@, "POST /hide"@, 0); }
            reveal_strlit("POST /toast-test");
            assert("POST /settings"@ != "POST /toast-test"@) by { lemma_keys_differ("POST /settings"@, "POST /toast-test"@, 0); }
            reveal_strlit("POST /reveal");
            assert("POST /settings"@ != "POST /reveal"@) by { lemma_keys_differ("POST /settings"@, "POST /reveal"@, 0); }
            reveal_strlit("POST /browse-folder");
            assert("POST /settings"@ != "POST /browse-folder"@) by { lemma_keys_differ("POST /settings"@, "POST /browse-folder"@, 0); }
            reveal_strlit("GET /settings");
            assert("POST /settings"@ != "GET /settings"@) by { lemma_keys_differ("POST /settings"@, "GET /settings"@, 0); }
        },
        Route::DshReload => {
            reveal_strlit("POST /dsh-reload");
            reveal_strlit("GET /health");
            assert("POST /dsh-reload"@ != "GET /health"@) by { lemma_keys_differ("POST /dsh-reload"@, "GET /health"@, 0); }
            reveal_strlit("GET /shellbar");
            assert("POST /dsh-reload"@ != "GET /shellbar"@) by { lemma_keys_differ("POST /dsh-reload"@, "GET /shellbar"@, 0); }
            reveal_strlit("GET /panel-config");
            assert("POST /dsh-reload"@ != "GET /panel-config"@) by { lemma_keys_differ("POST /dsh-reload"@, "GET /panel-config"@, 0); }
            reveal_strlit("GET /state");
            assert("POST /dsh-reload"@ != "GET /state"@) by { lemma_keys_differ("POST /dsh-reload"@, "GET /state"@, 0); }
            reveal_strlit("GET /rect");
            assert("POST /dsh-reload"@ != "GET /rect"@) by { lemma_keys_differ("POST /dsh-reload"@, "GET /rect"@, 0); }
            reveal_strlit("POST /rect");
            assert("POST /dsh-reload"@ != "POST /rect"@) by { lemma_keys_differ("POST /dsh-reload"@, "POST /rect"@, 0); }
            reveal_strlit("POST /navigate");
            assert("POST /dsh-reload"@ != "POST /navigate"@) by { lemma_keys_differ("POST /dsh-reload"@, "POST /navigate"@, 0); }
            reveal_strlit("POST /eval");
            assert("POST /dsh-reload"@ != "POST /eval"@) by { lemma_keys_differ("POST /dsh-reload"@, "POST /eval"@, 0); }
            reveal_strlit("POST /cdp");
            assert("POST /dsh-reload"@ != "POST /cdp"@) by { lemma_keys_differ("POST /dsh-reload"@, "POST /cdp"@, 0); }
            reveal_strlit("POST /dsh-eval");
            assert("POST /dsh-reload"@ != "POST /dsh-eval"@) by { lemma_keys_differ("POST /dsh-reload"@, "POST /dsh-eval"@, 0); }
            reveal_strlit("POST /show");
            assert("POST /dsh-reload"@ != "POST /show"@) by { lemma_keys_differ("POST /dsh-reload"@, "POST /show"@, 0); }
            reveal_strlit("POST /hide");
            assert("POST /dsh-reload"@ != "POST /hide"@) by { lemma_keys_differ("POST /dsh-reload"@, "POST /hide"@, 0); }
            reveal_strlit("POST /toast-test");
            assert("POST /dsh-reload"@ != "POST /toast-test"@) by { lemma_keys_differ("POST /dsh-reload"@, "POST /toast-test"@, 6); }
            reveal_strlit("POST /reveal");
            assert("POST /dsh-reload"@ != "POST /reveal"@) by { lemma_keys_differ("POST /dsh-reload"@, "POST /reveal"@, 0); }
            reveal_strlit("POST /browse-folder");
            assert("POST /dsh-reload"@ != "POST /browse-folder"@) by { lemma_keys_differ("POST /dsh-reload"@, "POST /browse-folder"@, 0); }
            reveal_strlit("GET /settings");
            assert("POST /dsh-reload"@ != "GET /settings"@) by { lemma_keys_differ("POST /dsh-reload"@, "GET /settings"@, 0); }
            reveal_strlit("POST /settings");
            assert("POST /dsh-reload"@ != "POST /settings"@) by { lemma_keys_differ("POST /dsh-reload"@, "POST /settings"@, 0); }
        },
        Route::DshRestart => {
            reveal_strlit("POST /dsh-restart");
            reveal_strlit("GET /health");
            assert("POST /dsh-restart"@ != "GET /health"@) by { lemma_keys_differ("POST /dsh-restart"@, "GET /health"@, 0); }
            reveal_strlit("GET /shellbar");
            assert("POST /dsh-restart"@ != "GET /shellbar"@) by { lemma_keys_differ("POST /dsh-restart"@, "GET /shellbar"@, 0); }
            reveal_strlit("GET /panel-config");
            assert("POST /dsh-restart"@ != "GET /panel-config"@) by { lemma_keys_differ("POST /dsh-restart"@, "GET /panel-config"@, 0); }
            reveal_strlit("GET /state");
            assert("POST /dsh-restart"@ != "GET /state"@) by { lemma_keys_differ("POST /dsh-restart"@, "GET /state"@, 0); }
            reveal_strlit("GET /rect");
            assert("POST /dsh-restart"@ != "GET /rect"@) by { lemma_keys_differ("POST /dsh-restart"@, "GET /rect"@, 0); }
            reveal_strlit("POST /rect");
            assert("POST /dsh-restart"@ != "POST /rect"@) by { lemma_keys_differ("POST /dsh-restart"@, "POST /rect"@, 0); }
            reveal_strlit("POST /navigate");
            assert("POST /dsh-restart"@ != "POST /navigate"@) by { lemma_keys_differ("POST /dsh-restart"@, "POST /navigate"@, 0); }
            reveal_strlit("POST /eval");
            assert("POST /dsh-restart"@ != "POST /eval"@) by { lemma_keys_differ("POST /dsh-restart"@, "POST /eval"@, 0); }
            reveal_strlit("POST /cdp");
            assert("POST /dsh-restart"@ != "POST /cdp"@) by { lemma_keys_differ("POST /dsh-restart"@, "POST /cdp"@, 0); }
            reveal_strlit("POST /dsh-eval");
            assert("POST /dsh-restart"@ != "POST /dsh-eval"@) by { lemma_keys_differ("POST /dsh-restart"@, "POST /dsh-eval"@, 0); }
            reveal_strlit("POST /show");
            assert("POST /dsh-restart"@ != "POST /show"@) by { lemma_keys_differ("POST /dsh-restart"@, "POST /show"@, 0); }
            reveal_strlit("POST /hide");
            assert("POST /dsh-restart"@ != "POST /hide"@) by { lemma_keys_differ("POST /dsh-restart"@, "POST /hide"@, 0); }
            reveal_strlit("POST /toast-test");
            assert("POST /dsh-restart"@ != "POST /toast-test"@) by { lemma_keys_differ("POST /dsh-restart"@, "POST /toast-test"@, 0); }
            reveal_strlit("POST /reveal");
            assert("POST /dsh-restart"@ != "POST /reveal"@) by { lemma_keys_differ("POST /dsh-restart"@, "POST /reveal"@, 0); }
            reveal_strlit("POST /browse-folder");
            assert("POST /dsh-restart"@ != "POST /browse-folder"@) by { lemma_keys_differ("POST /dsh-restart"@, "POST /browse-folder"@, 0); }
            reveal_strlit("GET /settings");
            assert("POST /dsh-restart"@ != "GET /settings"@) by { lemma_keys_differ("POST /dsh-restart"@, "GET /settings"@, 0); }
            reveal_strlit("POST /settings");
            assert("POST /dsh-restart"@ != "POST /settings"@) by { lemma_keys_differ("POST /dsh-restart"@, "POST /settings"@, 0); }
            reveal_strlit("POST /dsh-reload");
            assert("POST /dsh-restart"@ != "POST /dsh-reload"@) by { lemma_keys_differ("POST /dsh-restart"@, "POST /dsh-reload"@, 0); }
        },
        Route::DshCheck => {
            reveal_strlit("POST /dsh-check");
            reveal_strlit("GET /health");
            assert("POST /dsh-check"@ != "GET /health"@) by { lemma_keys_differ("POST /dsh-check"@, "GET /health"@, 0); }
            reveal_strlit("GET /shellbar");
            assert("POST /dsh-check"@ != "GET /shellbar"@) by { lemma_keys_differ("POST /dsh-check"@, "GET /shellbar"@, 0); }
            reveal_strlit("GET /panel-config");
            assert("POST /dsh-check"@ != "GET /panel-config"@) by { lemma_keys_differ("POST /dsh-check"@, "GET /panel-config"@, 0); }
            reveal_strlit("GET /state");
            assert("POST /dsh-check"@ != "GET /state"@) by { lemma_keys_differ("POST /dsh-check"@, "GET /state"@, 0); }
            reveal_strlit("GET /rect");
            assert("POST /dsh-check"@ != "GET /rect"@) by { lemma_keys_differ("POST /dsh-check"@, "GET /rect"@, 0); }
            reveal_strlit("POST /rect");
            assert("POST /dsh-check"@ != "POST /rect"@) by { lemma_keys_differ("POST /dsh-check"@, "POST /rect"@, 0); }
            reveal_strlit("POST /navigate");
            assert("POST /dsh-check"@ != "POST /navigate"@) by { lemma_keys_differ("POST /dsh-check"@, "POST /navigate"@, 0); }
            reveal_strlit("POST /eval");
            assert("POST /dsh-check"@ != "POST /eval"@) by { lemma_keys_differ("POST /dsh-check"@, "POST /eval"@, 0); }
            reveal_strlit("POST /cdp");
            assert("POST /dsh-check"@ != "POST /cdp"@) by { lemma_keys_differ("POST /dsh-check"@, "POST /cdp"@, 0); }
            reveal_strlit("POST /dsh-eval");
            assert("POST /dsh-check"@ != "POST /dsh-eval"@) by { lemma_keys_differ("POST /dsh-check"@, "POST /dsh-eval"@, 0); }
            reveal_strlit("POST /show");
            assert("POST /dsh-check"@ != "POST /show"@) by { lemma_keys_differ("POST /dsh-check"@, "POST /show"@, 0); }
            reveal_strlit("POST /hide");
            assert("POST /dsh-check"@ != "POST /hide"@) by { lemma_keys_differ("POST /dsh-check"@, "POST /hide"@, 0); }
            reveal_strlit("POST /toast-test");
            assert("POST /dsh-check"@ != "POST /toast-test"@) by { lemma_keys_differ("POST /dsh-check"@, "POST /toast-test"@, 0); }
            reveal_strlit("POST /reveal");
            assert("POST /dsh-check"@ != "POST /reveal"@) by { lemma_keys_differ("POST /dsh-check"@, "POST /reveal"@, 0); }
            reveal_strlit("POST /browse-folder");
            assert("POST /dsh-check"@ != "POST /browse-folder"@) by { lemma_keys_differ("POST /dsh-check"@, "POST /browse-folder"@, 0); }
            reveal_strlit("GET /settings");
            assert("POST /dsh-check"@ != "GET /settings"@) by { lemma_keys_differ("POST /dsh-check"@, "GET /settings"@, 0); }
            reveal_strlit("POST /settings");
            assert("POST /dsh-check"@ != "POST /settings"@) by { lemma_keys_differ("POST /dsh-check"@, "POST /settings"@, 0); }
            reveal_strlit("POST /dsh-reload");
            assert("POST /dsh-check"@ != "POST /dsh-reload"@) by { lemma_keys_differ("POST /dsh-check"@, "POST /dsh-reload"@, 0); }
            reveal_strlit("POST /dsh-restart");
            assert("POST /dsh-check"@ != "POST /dsh-restart"@) by { lemma_keys_differ("POST /dsh-check"@, "POST /dsh-restart"@, 0); }
        },
        Route::DshUpgrade => {
            reveal_strlit("POST /dsh-upgrade");
            reveal_strlit("GET /health");
            assert("POST /dsh-upgrade"@ != "GET /health"@) by { lemma_keys_differ("POST /dsh-upgrade"@, "GET /health"@, 0); }
            reveal_strlit("GET /shellbar");
            assert("POST /dsh-upgrade"@ != "GET /shellbar"@) by { lemma_keys_differ("POST /dsh-upgrade"@, "GET /shellbar"@, 0); }
            reveal_strlit("GET /panel-config");
            assert("POST /dsh-upgrade"@ != "GET /panel-config"@) by { lemma_keys_differ("POST /dsh-upgrade"@, "GET /panel-config"@, 0); }
            reveal_strlit("GET /state");
            assert("POST /dsh-upgrade"@ != "GET /state"@) by { lemma_keys_differ("POST /dsh-upgrade"@, "GET /state"@, 0); }
            reveal_strlit("GET /rect");
            assert("POST /dsh-upgrade"@ != "GET /rect"@) by { lemma_keys_differ("POST /dsh-upgrade"@, "GET /rect"@, 0); }
            reveal_strlit("POST /rect");
            assert("POST /dsh-upgrade"@ != "POST /rect"@) by { lemma_keys_differ("POST /dsh-upgrade"@, "POST /rect"@, 0); }
            reveal_strlit("POST /navigate");
            assert("POST /dsh-upgrade"@ != "POST /navigate"@) by { lemma_keys_differ("POST /dsh-upgrade"@, "POST /navigate"@, 0); }
            reveal_strlit("POST /eval");
            assert("POST /dsh-upgrade"@ != "POST /eval"@) by { lemma_keys_differ("POST /dsh-upgrade"@, "POST /eval"@, 0); }
            reveal_strlit("POST /cdp");
            assert("POST /dsh-upgrade"@ != "POST /cdp"@) by { lemma_keys_differ("POST /dsh-upgrade"@, "POST /cdp"@, 0); }
            reveal_strlit("POST /dsh-eval");
            assert("POST /dsh-upgrade"@ != "POST /dsh-eval"@) by { lemma_keys_differ("POST /dsh-upgrade"@, "POST /dsh-eval"@, 0); }
            reveal_strlit("POST /show");
            assert("POST /dsh-upgrade"@ != "POST /show"@) by { lemma_keys_differ("POST /dsh-upgrade"@, "POST /show"@, 0); }
            reveal_strlit("POST /hide");
            assert("POST /dsh-upgrade"@ != "POST /hide"@) by { lemma_keys_differ("POST /dsh-upgrade"@, "POST /hide"@, 0); }
            reveal_strlit("POST /toast-test");
            assert("POST /dsh-upgrade"@ != "POST /toast-test"@) by { lemma_keys_differ("POST /dsh-upgrade"@, "POST /toast-test"@, 0); }
            reveal_strlit("POST /reveal");
            assert("POST /dsh-upgrade"@ != "POST /reveal"@) by { lemma_keys_differ("POST /dsh-upgrade"@, "POST /reveal"@, 0); }
            reveal_strlit("POST /browse-folder");
            assert("POST /dsh-upgrade"@ != "POST /browse-folder"@) by { lemma_keys_differ("POST /dsh-upgrade"@, "POST /browse-folder"@, 0); }
            reveal_strlit("GET /settings");
            assert("POST /dsh-upgrade"@ != "GET /settings"@) by { lemma_keys_differ("POST /dsh-upgrade"@, "GET /settings"@, 0); }
            reveal_strlit("POST /settings");
            assert("POST /dsh-upgrade"@ != "POST /settings"@) by { lemma_keys_differ("POST /dsh-upgrade"@, "POST /settings"@, 0); }
            reveal_strlit("POST /dsh-reload");
            assert("POST /dsh-upgrade"@ != "POST /dsh-reload"@) by { lemma_keys_differ("POST /dsh-upgrade"@, "POST /dsh-reload"@, 0); }
            reveal_strlit("POST /dsh-restart");
            assert("POST /dsh-upgrade"@ != "POST /dsh-restart"@) by { lemma_keys_differ("POST /dsh-upgrade"@, "POST /dsh-restart"@, 10); }
            reveal_strlit("POST /dsh-check");
            assert("POST /dsh-upgrade"@ != "POST /dsh-check"@) by { lemma_keys_differ("POST /dsh-upgrade"@, "POST /dsh-check"@, 0); }
        },
        Route::RevealTab => {
            reveal_strlit("POST /reveal-tab");
            reveal_strlit("GET /health");
            assert("POST /reveal-tab"@ != "GET /health"@) by { lemma_keys_differ("POST /reveal-tab"@, "GET /health"@, 0); }
            reveal_strlit("GET /shellbar");
            assert("POST /reveal-tab"@ != "GET /shellbar"@) by { lemma_keys_differ("POST /reveal-tab"@, "GET /shellbar"@, 0); }
            reveal_strlit("GET /panel-config");
            assert("POST /reveal-tab"@ != "GET /panel-config"@) by { lemma_keys_differ("POST /reveal-tab"@, "GET /panel-config"@, 0); }
            reveal_strlit("GET /state");
            assert("POST /reveal-tab"@ != "GET /state"@) by { lemma_keys_differ("POST /reveal-tab"@, "GET /state"@, 0); }
            reveal_strlit("GET /rect");
            assert("POST /reveal-tab"@ != "GET /rect"@) by { lemma_keys_differ("POST /reveal-tab"@, "GET /rect"@, 0); }
            reveal_strlit("POST /rect");
            assert("POST /reveal-tab"@ != "POST /rect"@) by { lemma_keys_differ("POST /reveal-tab"@, "POST /rect"@, 0); }
            reveal_strlit("POST /navigate");
            assert("POST /reveal-tab"@ != "POST /navigate"@) by { lemma_keys_differ("POST /reveal-tab"@, "POST /navigate"@, 0); }
            reveal_strlit("POST /eval");
            assert("POST /reveal-tab"@ != "POST /eval"@) by { lemma_keys_differ("POST /reveal-tab"@, "POST /eval"@, 0); }
            reveal_strlit("POST /cdp");
            assert("POST /reveal-tab"@ != "POST /cdp"@) by { lemma_keys_differ("POST /reveal-tab"@, "POST /cdp"@, 0); }
            reveal_strlit("POST /dsh-eval");
            assert("POST /reveal-tab"@ != "POST /dsh-eval"@) by { lemma_keys_differ("POST /reveal-tab"@, "POST /dsh-eval"@, 0); }
            reveal_strlit("POST /show");
            assert("POST /reveal-tab"@ != "POST /show"@) by { lemma_keys_differ("POST /reveal-tab"@, "POST /show"@, 0); }
            reveal_strlit("POST /hide");
            assert("POST /reveal-tab"@ != "POST /hide"@) by { lemma_keys_differ("POST /reveal-tab"@, "POST /hide"@, 0); }
            reveal_strlit("POST /toast-test");
            assert("POST /reveal-tab"@ != "POST /toast-test"@) by { lemma_keys_differ("POST /reveal-tab"@, "POST /toast-test"@, 6); }
            reveal_strlit("POST /reveal");
            assert("POST /reveal-tab"@ != "POST /reveal"@) by { lemma_keys_differ("POST /reveal-tab"@, "POST /reveal"@, 0); }
            reveal_strlit("POST /browse-folder");
            assert("POST /reveal-tab"@ != "POST /browse-folder"@) by { lemma_keys_differ("POST /reveal-tab"@, "POST /browse-folder"@, 0); }
            reveal_strlit("GET /settings");
            assert("POST /reveal-tab"@ != "GET /settings"@) by { lemma_keys_differ("POST /reveal-tab"@, "GET /settings"@, 0); }
            reveal_strlit("POST /settings");
            assert("POST /reveal-tab"@ != "POST /settings"@) by { lemma_keys_differ("POST /reveal-tab"@, "POST /settings"@, 0); }
            reveal_strlit("POST /dsh-reload");
            assert("POST /reveal-tab"@ != "POST /dsh-reload"@) by { lemma_keys_differ("POST /reveal-tab"@, "POST /dsh-reload"@, 6); }
            reveal_strlit("POST /dsh-restart");
            assert("POST /reveal-tab"@ != "POST /dsh-restart"@) by { lemma_keys_differ("POST /reveal-tab"@, "POST /dsh-restart"@, 0); }
            reveal_strlit("POST /dsh-check");
            assert("POST /reveal-tab"@ != "POST /dsh-check"@) by { lemma_keys_differ("POST /reveal-tab"@, "POST /dsh-check"@, 0); }
            reveal_strlit("POST /dsh-upgrade");
            assert("POST /reveal-tab"@ != "POST /dsh-upgrade"@) by { lemma_keys_differ("POST /reveal-tab"@, "POST /dsh-upgrade"@, 0); }
        },
        Route::SettingsMenu => {
            reveal_strlit("POST /settings-menu");
            reveal_strlit("GET /health");
            assert("POST /settings-menu"@ != "GET /health"@) by { lemma_keys_differ("POST /settings-menu"@, "GET /health"@, 0); }
            reveal_strlit("GET /shellbar");
            assert("POST /settings-menu"@ != "GET /shellbar"@) by { lemma_keys_differ("POST /settings-menu"@, "GET /shellbar"@, 0); }
            reveal_strlit("GET /panel-config");
            assert("POST /settings-menu"@ != "GET /panel-config"@) by { lemma_keys_differ("POST /settings-menu"@, "GET /panel-config"@, 0); }
            reveal_strlit("GET /state");
            assert("POST /settings-menu"@ != "GET /state"@) by { lemma_keys_differ("POST /settings-menu"@, "GET /state"@, 0); }
            reveal_strlit("GET /rect");
            assert("POST /settings-menu"@ != "GET /rect"@) by { lemma_keys_differ("POST /settings-menu"@, "GET /rect"@, 0); }
            reveal_strlit("POST /rect");
            assert("POST /settings-menu"@ != "POST /rect"@) by { lemma_keys_differ("POST /settings-menu"@, "POST /rect"@, 0); }
            reveal_strlit("POST /navigate");
            assert("POST /settings-menu"@ != "POST /navigate"@) by { lemma_keys_differ("POST /settings-menu"@, "POST /navigate"@, 0); }
            reveal_strlit("POST /eval");
            assert("POST /settings-menu"@ != "POST /eval"@) by { lemma_keys_differ("POST /settings-menu"@, "POST /eval"@, 0); }
            reveal_strlit("POST /cdp");
            assert("POST /settings-menu"@ != "POST /cdp"@) by { lemma_keys_differ("POST /settings-menu"@, "POST /cdp"@, 0); }
            reveal_strlit("POST /dsh-eval");
            assert("POST /settings-menu"@ != "POST /dsh-eval"@) by { lemma_keys_differ("POST /settings-menu"@, "POST /dsh-eval"@, 0); }
            reveal_strlit("POST /show");
            assert("POST /settings-menu"@ != "POST /show"@) by { lemma_keys_differ("POST /settings-menu"@, "POST /show"@, 0); }
            reveal_strlit("POST /hide");
            assert("POST /settings-menu"@ != "POST /hide"@) by { lemma_keys_differ("POST /settings-menu"@, "POST /hide"@, 0); }
            reveal_strlit("POST /toast-test");
            assert("POST /settings-menu"@ != "POST /toast-test"@) by { lemma_keys_differ("POST /settings-menu"@, "POST /toast-test"@, 0); }
            reveal_strlit("POST /reveal");
            assert("POST /settings-menu"@ != "POST /reveal"@) by { lemma_keys_differ("POST /settings-menu"@, "POST /reveal"@, 0); }
            reveal_strlit("POST /browse-folder");
            assert("POST /settings-menu"@ != "POST /browse-folder"@) by { lemma_keys_differ("POST /settings-menu"@, "POST /browse-folder"@, 6); }
            reveal_strlit("GET /settings");
            assert("POST /settings-menu"@ != "GET /settings"@) by { lemma_keys_differ("POST /settings-menu"@, "GET /settings"@, 0); }
            reveal_strlit("POST /settings");
            assert("POST /settings-menu"@ != "POST /settings"@) by { lemma_keys_differ("POST /settings-menu"@, "POST /settings"@, 0); }
            reveal_strlit("POST /dsh-reload");
            assert("POST /settings-menu"@ != "POST /dsh-reload"@) by { lemma_keys_differ("POST /settings-menu"@, "POST /dsh-reload"@, 0); }
            reveal_strlit("POST /dsh-restart");
            assert("POST /settings-menu"@ != "POST /dsh-restart"@) by { lemma_keys_differ("POST /settings-menu"@, "POST /dsh-restart"@, 0); }
            reveal_strlit("POST /dsh-check");
            assert("POST /settings-menu"@ != "POST /dsh-check"@) by { lemma_keys_differ("POST /settings-menu"@, "POST /dsh-check"@, 0); }
            reveal_strlit("POST /dsh-upgrade");
            assert("POST /settings-menu"@ != "POST /dsh-upgrade"@) by { lemma_keys_differ("POST /settings-menu"@, "POST /dsh-upgrade"@, 0); }
            reveal_strlit("POST /reveal-tab");
            assert("POST /settings-menu"@ != "POST /reveal-tab"@) by { lemma_keys_differ("POST /settings-menu"@, "POST /reveal-tab"@, 0); }
        },
        Route::DragStart => {
            reveal_strlit("POST /drag-start");
            reveal_strlit("GET /health");
            assert("POST /drag-start"@ != "GET /health"@) by { lemma_keys_differ("POST /drag-start"@, "GET /health"@, 0); }
            reveal_strlit("GET /shellbar");
            assert("POST /drag-start"@ != "GET /shellbar"@) by { lemma_keys_differ("POST /drag-start"@, "GET /shellbar"@, 0); }
            reveal_strlit("GET /panel-config");
            assert("POST /drag-start"@ != "GET /panel-config"@) by { lemma_keys_differ("POST /drag-start"@, "GET /panel-config"@, 0); }
            reveal_strlit("GET /state");
            assert("POST /drag-start"@ != "GET /state"@) by { lemma_keys_differ("POST /drag-start"@, "GET /state"@, 0); }
            reveal_strlit("GET /rect");
            assert("POST /drag-start"@ != "GET /rect"@) by { lemma_keys_differ("POST /drag-start"@, "GET /rect"@, 0); }
            reveal_strlit("POST /rect");
            assert("POST /drag-start"@ != "POST /rect"@) by { lemma_keys_differ("POST /drag-start"@, "POST /rect"@, 0); }
            reveal_strlit("POST /navigate");
            assert("POST /drag-start"@ != "POST /navigate"@) by { lemma_keys_differ("POST /drag-start"@, "POST /navigate"@, 0); }
            reveal_strlit("POST /eval");
            assert("POST /drag-start"@ != "POST /eval"@) by { lemma_keys_differ("POST /drag-start"@, "POST /eval"@, 0); }
            reveal_strlit("POST /cdp");
            assert("POST /drag-start"@ != "POST /cdp"@) by { lemma_keys_differ("POST /drag-start"@, "POST /cdp"@, 0); }
            reveal_strlit("POST /dsh-eval");
            assert("POST /drag-start"@ != "POST /dsh-eval"@) by { lemma_keys_differ("POST /drag-start"@, "POST /dsh-eval"@, 0); }
            reveal_strlit("POST /show");
            assert("POST /drag-start"@ != "POST /show"@) by { lemma_keys_differ("POST /drag-start"@, "POST /show"@, 0); }
            reveal_strlit("POST /hide");
            assert("POST /drag-start"@ != "POST /hide"@) by { lemma_keys_differ("POST /drag-start"@, "POST /hide"@, 0); }
            reveal_strlit("POST /toast-test");
            assert("POST /drag-start"@ != "POST /toast-test"@) by { lemma_keys_differ("POST /drag-start"@, "POST /toast-test"@, 6); }
            reveal_strlit("POST /reveal");
            assert("POST /drag-start"@ != "POST /reveal"@) by { lemma_keys_differ("POST /drag-start"@, "POST /reveal"@, 0); }
            reveal_strlit("POST /browse-folder");
            assert("POST /drag-start"@ != "POST /browse-folder"@) by { lemma_keys_differ("POST /drag-start"@, "POST /browse-folder"@, 0); }
            reveal_strlit("GET /settings");
            assert("POST /drag-start"@ != "GET /settings"@) by { lemma_keys_differ("POST /drag-start"@, "GET /settings"@, 0); }
            reveal_strlit("POST /settings");
            assert("POST /drag-start"@ != "POST /settings"@) by { lemma_keys_differ("POST /drag-start"@, "POST /settings"@, 0); }
            reveal_strlit("POST /dsh-reload");
            assert("POST /drag-start"@ != "POST /dsh-reload"@) by { lemma_keys_differ("POST /drag-start"@, "POST /dsh-reload"@, 7); }
            reveal_strlit("POST /dsh-restart");
            assert("POST /drag-start"@ != "POST /dsh-restart"@) by { lemma_keys_differ("POST /drag-start"@, "POST /dsh-restart"@, 0); }
            reveal_strlit("POST /dsh-check");
            assert("POST /drag-start"@ != "POST /dsh-check"@) by { lemma_keys_differ("POST /drag-start"@, "POST /dsh-check"@, 0); }
            reveal_strlit("POST /dsh-upgrade");
            assert("POST /drag-start"@ != "POST /dsh-upgrade"@) by { lemma_keys_differ("POST /drag-start"@, "POST /dsh-upgrade"@, 0); }
            reveal_strlit("POST /reveal-tab");
            assert("POST /drag-start"@ != "POST /reveal-tab"@) by { lemma_keys_differ("POST /drag-start"@, "POST /reveal-tab"@, 6); }
            reveal_strlit("POST /settings-menu");
            assert("POST /drag-start"@ != "POST /settings-menu"@) by { lemma_keys_differ("POST /drag-start"@, "POST /settings-menu"@, 0); }
        },
        Route::Window => {
            reveal_strlit("POST /window");
            reveal_strlit("GET /health");
            assert("POST /window"@ != "GET /health"@) by { lemma_keys_differ("POST /window"@, "GET /health"@, 0); }
            reveal_strlit("GET /shellbar");
            assert("POST /window"@ != "GET /shellbar"@) by { lemma_keys_differ("POST /window"@, "GET /shellbar"@, 0); }
            reveal_strlit("GET /panel-config");
            assert("POST /window"@ != "GET /panel-config"@) by { lemma_keys_differ("POST /window"@, "GET /panel-config"@, 0); }
            reveal_strlit("GET /state");
            assert("POST /window"@ != "GET /state"@) by { lemma_keys_differ("POST /window"@, "GET /state"@, 0); }
            reveal_strlit("GET /rect");
            assert("POST /window"@ != "GET /rect"@) by { lemma_keys_differ("POST /window"@, "GET /rect"@, 0); }
            reveal_strlit("POST /rect");
            assert("POST /window"@ != "POST /rect"@) by { lemma_keys_differ("POST /window"@, "POST /rect"@, 0); }
            reveal_strlit("POST /navigate");
            assert("POST /window"@ != "POST /navigate"@) by { lemma_keys_differ("POST /window"@, "POST /navigate"@, 0); }
            reveal_strlit("POST /eval");
            assert("POST /window"@ != "POST /eval"@) by { lemma_keys_differ("POST /window"@, "POST /eval"@, 0); }
            reveal_strlit("POST /cdp");
            assert("POST /window"@ != "POST /cdp"@) by { lemma_keys_differ("POST /window"@, "POST /cdp"@, 0); }
            reveal_strlit("POST /dsh-eval");
            assert("POST /window"@ != "POST /dsh-eval"@) by { lemma_keys_differ("POST /window"@, "POST /dsh-eval"@, 0); }
            reveal_strlit("POST /show");
            assert("POST /window"@ != "POST /show"@) by { lemma_keys_differ("POST /window"@, "POST /show"@, 0); }
            reveal_strlit("POST /hide");
            assert("POST /window"@ != "POST /hide"@) by { lemma_keys_differ("POST /window"@, "POST /hide"@, 0); }
            reveal_strlit("POST /toast-test");
            assert("POST /window"@ != "POST /toast-test"@) by { lemma_keys_differ("POST /window"@, "POST /toast-test"@, 0); }
            reveal_strlit("POST /reveal");
            assert("POST /window"@ != "POST /reveal"@) by { lemma_keys_differ("POST /window"@, "POST /reveal"@, 6); }
            reveal_strlit("POST /browse-folder");
            assert("POST /window"@ != "POST /browse-folder"@) by { lemma_keys_differ("POST /window"@, "POST /browse-folder"@, 0); }
            reveal_strlit("GET /settings");
            assert("POST /window"@ != "GET /settings"@) by { lemma_keys_differ("POST /window"@, "GET /settings"@, 0); }
            reveal_strlit("POST /settings");
            assert("POST /window"@ != "POST /settings"@) by { lemma_keys_differ("POST /window"@, "POST /settings"@, 0); }
            reveal_strlit("POST /dsh-reload");
            assert("POST /window"@ != "POST /dsh-reload"@) by { lemma_keys_differ("POST /window"@, "POST /dsh-reload"@, 0); }
            reveal_strlit("POST /dsh-restart");
            assert("POST /window"@ != "POST /dsh-restart"@) by { lemma_keys_differ("POST /window"@, "POST /dsh-restart"@, 0); }
            reveal_strlit("POST /dsh-check");
            assert("POST /window"@ != "POST /dsh-check"@) by { lemma_keys_differ("POST /window"@, "POST /dsh-check"@, 0); }
            reveal_strlit("POST /dsh-upgrade");
            assert("POST /window"@ != "POST /dsh-upgrade"@) by { lemma_keys_differ("POST /window"@, "POST /dsh-upgrade"@, 0); }
            reveal_strlit("POST /reveal-tab");
            assert("POST /window"@ != "POST /reveal-tab"@) by { lemma_keys_differ("POST /window"@, "POST /reveal-tab"@, 0); }
            reveal_strlit("POST /settings-menu");
            assert("POST /window"@ != "POST /settings-menu"@) by { lemma_keys_differ("POST /window"@, "POST /settings-menu"@, 0); }
            reveal_strlit("POST /drag-start");
            assert("POST /window"@ != "POST /drag-start"@) by { lemma_keys_differ("POST /window"@, "POST /drag-start"@, 0); }
        },
        _ => {},
    }
}

/// No two keys share an endpoint: a key that reaches an endpoint is that
/// endpoint's documented key.
pub proof fn lemma_keys_are_distinct(key: Seq<char>)
    ensures
        route_of_key(key) != Route::Unknown ==> endpoint_key(route_of_key(key)) == key,
        route_of_key(key) != Route::Options,
{
}

/// A request reaches an endpoint by its method and path, whatever query it
/// carries: the query is handed on, not routed.
pub proof fn lemma_route_ignores_query(method: Seq<char>, path: Seq<char>, query: Seq<char>)
    requires
        method != "OPTIONS"@,
        forall|i: int| 0 <= i < path.len() ==> path[i] != '?',
    ensures
        route_spec(method, path + seq!['?'] + query) == (route_of_key(method + " "@ + path), query),
        route_spec(method, path) == (route_of_key(method + " "@ + path), Seq::<char>::empty()),
{
    let full = path + seq!['?'] + query;
    assert forall|j: int| 0 <= j < path.len() implies #[trigger] full[j] != '?' by {
        assert(full[j] == path[j]);
    }
    lemma_first_index(full, '?', path.len() as int);
    assert(full.take(path.len() as int) =~= path);
    assert(full.skip(path.len() as int + 1) =~= query);
    lemma_first_index(path, '?', path.len() as int);
}

/// Routing of a request: any `OPTIONS` is a preflight; otherwise the path
/// is cut at its first `?` and `METHOD PATH` picks the endpoint. The query
/// (empty when there is none) comes along.
pub open spec fn route_spec(method: Seq<char>, path: Seq<char>) -> (Route, Seq<char>) {
    let (p, q) = match split_once_spec(path, '?') {
        Some((p, q)) => (p, q),
        None => (path, Seq::empty()),
    };
    if method == "OPTIONS"@ {
        (Route::Options, q)
    } else {
        (route_of_key(method + " "@ + p), q)
    }
}

fn route_of_key_exec(key: &str) -> (r: Route)
    ensures
        r == route_of_key(key@),
{
    if str_eq(key, "GET /health") {
        Route::Health
    } else if str_eq(key, "GET /shellbar") {
        Route::Shellbar
    } else if str_eq(key, "GET /panel-config") {
        Route::PanelConfig
    } else if str_eq(key, "GET /state") {
        Route::State
    } else if str_eq(key, "GET /rect") {
        Route::GetRect
    } else if str_eq(key, "POST /rect") {
        Route::PostRect
    } else if str_eq(key, "POST /navigate") {
        Route::Navigate
    } else if str_eq(key, "POST /eval") {
        Route::Eval
    } else if str_eq(key, "POST /cdp") {
        Route::Cdp
    } else if str_eq(key, "POST /dsh-eval") {
        Route::DshEval
    } else if str_eq(key, "POST /show") {
        Route::Show
    } else if str_eq(key, "POST /hide") {
        Route::Hide
    } else if str_eq(key, "POST /toast-test") {
        Route::ToastTest
    } else if str_eq(key, "POST /reveal") {
        Route::Reveal
    } else if str_eq(key, "POST /browse-folder") {
        Route::BrowseFolder
    } else if str_eq(key, "GET /settings") {
        Route::GetSettings
    } else if str_eq(key, "POST /settings") {
        Route::PostSettings
    } else if str_eq(key, "POST /dsh-reload") {
        Route::DshReload
    } else if str_eq(key, "POST /dsh-restart") {
        Route::DshRestart
    } else if str_eq(key, "POST /dsh-check") {
        Route::DshCheck
    } else if str_eq(key, "POST /dsh-upgrade") {
        Route::DshUpgrade
    } else if str_eq(key, "POST /reveal-tab") {
        Route::RevealTab
    } else if str_eq(key, "POST /settings-menu") {
        Route::SettingsMenu
    } else if str_eq(key, "POST /drag-start") {
        Route::DragStart
    } else if str_eq(key, "POST /window") {
        Route::Window
    } else {
        Route::Unknown
    }
}

/// Routes a request by method and path; returns the endpoint and the query.
pub fn route(method: &str, path: &str) -> (r: (Route, String))
    ensures
        (r.0, r.1@) == route_spec(method@, path@),
{
    let (p, q): (&str, &str) = match split_once(path, '?') {
        Some((p, q)) => (p, q),
        None => {
            proof {
                reveal_strlit("");
                assert(""@ =~= Seq::<char>::empty());
            }
            (path, "")
        },
    };
    if str_eq(method, "OPTIONS") {
        return (Route::Options, String::from_str(q));
    }
    let key = String::from_str(method).concat(" ").concat(p);
    (route_of_key_exec(key.as_str()), String::from_str(q))
}

/// The port a panel asks about: the first `dshPort=` query pair whose value
/// reads as a port.
pub open spec fn asked_port_in(pairs: Seq<Seq<char>>) -> Option<u16>
    decreases pairs.len(),
{
    if pairs.len() == 0 {
        None
    } else {
        match strip_prefix_spec(pairs[0], "dshPort="@) {
            Some(v) => match parse_u64_spec(v) {
                Some(n) => if n <= u16::MAX {
                    Some(n as u16)
                } else {
                    asked_port_in(pairs.drop_first())
                },
                None => asked_port_in(pairs.drop_first()),
            },
            None => asked_port_in(pairs.drop_first()),
        }
    }
}

pub open spec fn asked_port_spec(query: Seq<char>) -> Option<u16> {
    asked_port_in(split_spec(query, '&'))
}

proof fn lemma_asked_port_in_join(a: Seq<Seq<char>>, b: Seq<Seq<char>>)
    ensures
        asked_port_in(a + b) == match asked_port_in(a) {
            Some(n) => Some(n),
            None => asked_port_in(b),
        },
    decreases a.len(),
{
    if a.len() == 0 {
        assert(a + b =~= b);
    } else {
        assert((a + b)[0] == a[0]);
        assert((a + b).drop_first() =~= a.drop_first() + b);
        lemma_asked_port_in_join(a.drop_first(), b);
    }
}

/// The first `dshPort=N` pair that reads as a port is the one asked for,
/// wherever it stands: pairs after it change nothing, and pairs before it
/// that carry no port are passed over.
pub proof fn lemma_asked_port_found_anywhere(q: Seq<char>, r: Seq<char>)
    ensures
        asked_port_spec(q + "&"@ + r) == match asked_port_spec(q) {
            Some(n) => Some(n),
            None => asked_port_spec(r),
        },
{
    reveal_strlit("&");
    assert(q + "&"@ + r =~= q + seq!['&'] + r);
    lemma_split_acc_joined(q, r, '&', Seq::empty());
    lemma_asked_port_in_join(split_spec(q, '&'), split_spec(r, '&'));
}

/// A query that is just `dshPort=N` asks for port `N`.
pub proof fn lemma_asked_port_reads_decimal(n: u16)
    ensures
        asked_port_spec("dshPort="@ + decimal_spec(n as nat)) == Some(n),
{
    reveal_strlit("dshPort=");
    let p = "dshPort="@;
    let d = decimal_spec(n as nat);
    let q = p + d;
    lemma_decimal(n as nat);
    lemma_parse_decimal(n as u64);
    assert forall|i: int| 0 <= i < q.len() implies q[i] != '&' by {
        if i >= p.len() {
            assert(q[i] == d[i - p.len()]);
            lemma_digit_is_plain(d[i - p.len()]);
        }
    }
    lemma_split_acc_plain(q, Seq::empty(), '&', Seq::empty());
    assert(q + Seq::<char>::empty() =~= q);
    assert(Seq::<char>::empty() + q =~= q);
    assert(split_spec(q, '&') =~= seq![q]);
    lemma_strip_own_prefix(p, d);
    assert(seq![q].drop_first() =~= Seq::<Seq<char>>::empty());
}

/// Reads the `dshPort` a panel's discovery query carries.
pub fn asked_port(query: &str) -> (r: Option<u16>)
    ensures
        r == asked_port_spec(query@),
{
    let pairs = split_char(query, '&');
    let ghost pv = pairs.deep_view();
    let mut k: usize = 0;
    assert(pv.skip(0) =~= pv);
    while k < pairs.len()
        invariant
            pv == pairs.deep_view(),
            pv == split_spec(query@, '&'),
            k <= pairs.len(),
            asked_port_in(pv) == asked_port_in(pv.skip(k as int)),
        decreases pairs.len() - k,
    {
        assert(pv.skip(k as int)[0] == pairs@[k as int]@);
        assert(pv.skip(k as int).drop_first() =~= pv.skip(k + 1));
        if let Some(v) = strip_prefix(pairs[k].as_str(), "dshPort=") {
            if let Some(n) = parse_u64(v) {
                if n <= 65535 {
                    return Some(n as u16);
                }
            }
        }
        k = k + 1;
    }
    None
}

/// Frame-server discovery with identity: only a panel that reports the
/// shell's own child port learns the frame server; anyone else gets none.
pub fn panel_frame_base(query: &str, own_port: u16, frame_base: &str) -> (r: Option<String>)
    ensures
        match r {
            Some(b) => asked_port_spec(query@) == Some(own_port) && b@ == frame_base@,
            None => asked_port_spec(query@) != Some(own_port),
        },
{
    match asked_port(query) {
        Some(p) => if p == own_port {
            Some(String::from_str(frame_base))
        } else {
            None
        },
        None => None,
    }
}

/// A panel rectangle report steers the overlay only when it comes from the
/// shell's own child; reports from any other dsh are acknowledged and
/// dropped.
pub fn rect_report_applies(reported_port: u16, own_port: u16) -> (r: bool)
    ensures
        r == (reported_port == own_port),
{
    reported_port == own_port
}

/// A native window action of the frameless title bar.
#[derive(Clone, Copy, Debug, PartialEq, Eq, Structural)]
pub enum WindowAction {
    Minimize,
    ToggleMaximize,
    Close,
    Unknown,
}

pub open spec fn window_action_spec(action: Seq<char>) -> WindowAction {
    if action == "minimize"@ {
        WindowAction::Minimize
    } else if action == "toggle-max"@ {
        WindowAction::ToggleMaximize
    } else if action == "close"@ {
        WindowAction::Close
    } else {
        WindowAction::Unknown
    }
}

/// The title bar's three buttons name three different actions, and any
/// other text is no action at all.
pub proof fn lemma_window_actions(action: Seq<char>)
    ensures
        window_action_spec("minimize"@) == WindowAction::Minimize,
        window_action_spec("toggle-max"@) == WindowAction::ToggleMaximize,
        window_action_spec("close"@) == WindowAction::Close,
        action != "minimize"@ && action != "toggle-max"@ && action != "close"@ ==> window_action_spec(
            action,
        ) == WindowAction::Unknown,
{
    reveal_strlit("minimize");
    reveal_strlit("toggle-max");
    reveal_strlit("close");
    assert("toggle-max"@ != "minimize"@) by {
        lemma_keys_differ("toggle-max"@, "minimize"@, 0);
    }
    assert("close"@ != "minimize"@) by {
        assert("close"@.len() == 5);
        assert("minimize"@.len() == 8);
        lemma_keys_differ("close"@, "minimize"@, 0);
    }
    assert("close"@ != "toggle-max"@) by {
        lemma_keys_differ("close"@, "toggle-max"@, 0);
    }
}

/// Reads the action of a `POST /window` body.
pub fn window_action(action: &str) -> (r: WindowAction)
    ensures
        r == window_action_spec(action@),
{
    if str_eq(action, "minimize") {
        WindowAction::Minimize
    } else if str_eq(action, "toggle-max") {
        WindowAction::ToggleMaximize
    } else if str_eq(action, "close") {
        WindowAction::Close
    } else {
        WindowAction::Unknown
    }
}

/// Whether a path is absolute on the build target (`Path::is_absolute`).
pub uninterp spec fn absolute_path(path: Seq<char>) -> bool;

/// Calls `Path::is_absolute`. Claimed: for one build target the answer is a
/// function of the path text alone.
#[verifier::external_body]
pub(crate) fn is_absolute(path: &str) -> (r: bool)
    ensures
        r == absolute_path(path@),
{
    std::path::Path::new(path).is_absolute()
}

/// Whether `path` lies under `root`, component by component
/// (`Path::starts_with`).
pub uninterp spec fn path_under(path: Seq<char>, root: Seq<char>) -> bool;

/// Calls `Path::starts_with`. Claimed: for one build target the answer is a
/// function of the two path texts alone.
#[verifier::external_body]
fn starts_with_path(path: &str, root: &str) -> (r: bool)
    ensures
        r == path_under(path@, root@),
{
    std::path::Path::new(path).starts_with(root)
}

/// What a `POST /settings` request asks of the download folder.
pub enum DownloadDirRequest {
    /// Back to the default destination.
    Clear,
    /// Refused: the folder must be an absolute path.
    NotAbsolute,
    /// Use this folder (to be created if missing).
    Use(String),
}

pub enum DownloadDirRequestSpec {
    Clear,
    NotAbsolute,
    Use(Seq<char>),
}

pub open spec fn download_dir_request_spec(raw: Seq<char>) -> DownloadDirRequestSpec {
    let dir = trim_spec(raw);
    if dir.len() == 0 {
        DownloadDirRequestSpec::Clear
    } else if !absolute_path(dir) {
        DownloadDirRequestSpec::NotAbsolute
    } else {
        DownloadDirRequestSpec::Use(dir)
    }
}

impl View for DownloadDirRequest {
    type V = DownloadDirRequestSpec;

    open spec fn view(&self) -> DownloadDirRequestSpec {
        match self {
            DownloadDirRequest::Clear => DownloadDirRequestSpec::Clear,
            DownloadDirRequest::NotAbsolute => DownloadDirRequestSpec::NotAbsolute,
            DownloadDirRequest::Use(d) => DownloadDirRequestSpec::Use(d@),
        }
    }
}

/// Reads the requested download folder: blank clears it, a relative path
/// is refused, anything else is used trimmed.
pub fn download_dir_request(raw: &str) -> (r: DownloadDirRequest)
    ensures
        r@ == download_dir_request_spec(raw@),
{
    let dir = trim(raw);
    if dir.unicode_len() == 0 {
        DownloadDirRequest::Clear
    } else if !is_absolute(dir) {
        DownloadDirRequest::NotAbsolute
    } else {
        DownloadDirRequest::Use(String::from_str(dir))
    }
}

/// The download folder in effect: the configured one while it is absolute
/// and usable, else the default.
pub fn effective_download_dir(configured: Option<&str>, usable: bool, default_dir: &str) -> (r:
    String)
    ensures
        r@ == match configured {
            Some(c) => if absolute_path(c@) && usable {
                c@
            } else {
                default_dir@
            },
            None => default_dir@,
        },
{
    match configured {
        Some(c) => if is_absolute(c) && usable {
            String::from_str(c)
        } else {
            String::from_str(default_dir)
        },
        None => String::from_str(default_dir),
    }
}

/// Both separators read as `/`.
pub open spec fn unify_sep(c: char) -> char {
    if c == '\\' {
        '/'
    } else {
        c
    }
}

/// One component applied to the components resolved so far: empty and `.`
/// components vanish; `..` removes the component before it, vanishes at the
/// top of a rooted path and is kept at the top of a relative one.
pub open spec fn resolve_step(stack: Seq<Seq<char>>, c: Seq<char>, rooted: bool) -> Seq<Seq<char>> {
    if c.len() == 0 || c == "."@ {
        stack
    } else if c == ".."@ {
        if stack.len() > 0 && stack.last() != ".."@ {
            stack.drop_last()
        } else if rooted {
            stack
        } else {
            stack.push(c)
        }
    } else {
        stack.push(c)
    }
}

/// The first `n` components resolved.
pub open spec fn resolve_prefix(comps: Seq<Seq<char>>, n: nat, rooted: bool) -> Seq<Seq<char>>
    decreases n,
{
    if n == 0 || n > comps.len() {
        Seq::empty()
    } else {
        resolve_step(resolve_prefix(comps, (n - 1) as nat, rooted), comps[n - 1], rooted)
    }
}

/// Components joined by `/`.
pub open spec fn join_slash(parts: Seq<Seq<char>>) -> Seq<char>
    decreases parts.len(),
{
    if parts.len() == 0 {
        Seq::empty()
    } else if parts.len() == 1 {
        parts[0]
    } else {
        join_slash(parts.drop_last()) + "/"@ + parts.last()
    }
}

/// A path with `.` and `..` resolved lexically and `/` as its separator; it
/// stays rooted when it started with a separator.
pub open spec fn normalize_spec(p: Seq<char>) -> Seq<char> {
    let q = p.map_values(|c: char| unify_sep(c));
    let rooted = q.len() > 0 && q[0] == '/';
    let comps = split_spec(q, '/');
    let parts = resolve_prefix(comps, comps.len(), rooted);
    if rooted {
        "/"@ + join_slash(parts)
    } else {
        join_slash(parts)
    }
}

/// In a rooted path every resolved component is a name: none is empty,
/// `.` or `..`, so nothing in the result climbs above where it names.
pub proof fn lemma_rooted_resolution_has_no_dots(comps: Seq<Seq<char>>, n: nat)
    ensures
        forall|i: int|
            0 <= i < resolve_prefix(comps, n, true).len() ==> {
                let c = #[trigger] resolve_prefix(comps, n, true)[i];
                c.len() > 0 && c != "."@ && c != ".."@
            },
    decreases n,
{
    if n > 0 && n <= comps.len() {
        lemma_rooted_resolution_has_no_dots(comps, (n - 1) as nat);
        let prev = resolve_prefix(comps, (n - 1) as nat, true);
        let c = comps[n - 1];
        assert forall|i: int| 0 <= i < resolve_step(prev, c, true).len() implies {
            let d = #[trigger] resolve_step(prev, c, true)[i];
            d.len() > 0 && d != "."@ && d != ".."@
        } by {
            if i < prev.len() {
                assert(resolve_step(prev, c, true)[i] == prev[i]);
            }
        }
    }
}

fn unify_separators(p: &str) -> (r: String)
    ensures
        r@ == p@.map_values(|c: char| unify_sep(c)),
{
    let n = p.unicode_len();
    let mut q = String::new();
    let mut i: usize = 0;
    while i < n
        invariant
            i <= n,
            n == p@.len(),
            q@ == p@.take(i as int).map_values(|c: char| unify_sep(c)),
        decreases n - i,
    {
        let c = p.get_char(i);
        let d = if c == '\\' {
            '/'
        } else {
            c
        };
        push_char(&mut q, d);
        assert(p@.take(i + 1).map_values(|c: char| unify_sep(c)) =~= p@.take(i as int).map_values(
            |c: char| unify_sep(c),
        ).push(d));
        i = i + 1;
    }
    assert(p@.take(n as int) =~= p@);
    q
}

fn join_with_slash(parts: &Vec<String>) -> (r: String)
    ensures
        r@ == join_slash(parts.deep_view()),
{
    let mut out = String::new();
    let mut k: usize = 0;
    while k < parts.len()
        invariant
            k <= parts.len(),
            out@ == join_slash(parts.deep_view().take(k as int)),
        decreases parts.len() - k,
    {
        let ghost before = parts.deep_view().take(k as int);
        let ghost after = parts.deep_view().take(k + 1);
        assert(after.drop_last() =~= before);
        assert(after.last() == parts[k as int]@);
        if k > 0 {
            out.append("/");
        } else {
            assert(before.len() == 0);
            assert(out@ =~= Seq::<char>::empty());
        }
        out.append(parts[k].as_str());
        proof {
            reveal_strlit("/");
            if k == 0 {
                assert(out@ =~= after[0]);
            }
        }
        k = k + 1;
    }
    assert(parts.deep_view().take(parts.len() as int) =~= parts.deep_view());
    out
}

/// Resolves `.` and `..` in a path lexically, with `/` as separator.
pub fn normalize_path(p: &str) -> (r: String)
    ensures
        r@ == normalize_spec(p@),
{
    let q = unify_separators(p);
    let rooted = q.unicode_len() > 0 && q.as_str().get_char(0) == '/';
    let comps = split_char(q.as_str(), '/');
    let ghost cv = comps.deep_view();
    let mut stack: Vec<String> = Vec::new();
    let mut k: usize = 0;
    while k < comps.len()
        invariant
            k <= comps.len(),
            cv == comps.deep_view(),
            stack.deep_view() == resolve_prefix(cv, k as nat, rooted),
        decreases comps.len() - k,
    {
        let ghost prev = stack.deep_view();
        let c = comps[k].as_str();
        assert(c@ == cv[k as int]);
        if c.unicode_len() == 0 || str_eq(c, ".") {
        } else if str_eq(c, "..") {
            if stack.len() > 0 && !str_eq(stack[stack.len() - 1].as_str(), "..") {
                assert(stack[stack.len() - 1]@ == prev.last());
                stack.pop();
                assert(stack.deep_view() =~= prev.drop_last());
            } else if rooted {
            } else {
                stack.push(String::from_str(".."));
                assert(stack.deep_view() =~= prev.push(c@));
            }
        } else {
            stack.push(comps[k].clone());
            assert(stack.deep_view() =~= prev.push(c@));
        }
        k = k + 1;
    }
    let joined = join_with_slash(&stack);
    if rooted {
        proof {
            reveal_strlit("/");
        }
        String::from_str("/").concat(joined.as_str())
    } else {
        joined
    }
}

/// "Show in folder" may only open something inside the downloads folder:
/// the path, with `.` and `..` resolved, must lie under the folder.
pub fn reveal_allowed(path: &str, downloads_root: &str) -> (r: bool)
    ensures
        r == (path@.len() > 0 && path_under(normalize_spec(path@), normalize_spec(downloads_root@))),
{
    if path.unicode_len() == 0 {
        return false;
    }
    let a = normalize_path(path);
    let b = normalize_path(downloads_root);
    starts_with_path(a.as_str(), b.as_str())
}

/// Reason phrase of a response status.
pub open spec fn status_reason_spec(code: u16) -> Seq<char> {
    if code == 200 {
        "OK"@
    } else if code == 400 {
        "Bad Request"@
    } else if code == 404 {
        "Not Found"@
    } else if code == 405 {
        "Method Not Allowed"@
    } else if code == 500 {
        "Internal Error"@
    } else {
        "OK"@
    }
}

pub fn status_reason(code: u16) -> (r: &'static str)
    ensures
        r@ == status_reason_spec(code),
{
    if code == 200 {
        "OK"
    } else if code == 400 {
        "Bad Request"
    } else if code == 404 {
        "Not Found"
    } else if code == 405 {
        "Method Not Allowed"
    } else if code == 500 {
        "Internal Error"
    } else {
        "OK"
    }
}

/// Head of a JSON response with the given status and body.
pub open spec fn json_head_spec(code: u16, body_bytes: nat) -> Seq<char> {
    "HTTP/1.1 "@ + decimal_spec(code as nat) + " "@ + status_reason_spec(code)
        + "\r\ncontent-type: application/json; charset=utf-8\r\ncontent-length: "@
        + decimal_spec(body_bytes)
        + "\r\naccess-control-allow-origin: *\r\naccess-control-allow-methods: GET, POST, OPTIONS\r\naccess-control-allow-headers: content-type\r\nconnection: close\r\n\r\n"@
}

/// Builds the head of a JSON response whose body is `body`.
pub fn json_response_head(code: u16, body: &str) -> (r: String)
    ensures
        r@ == json_head_spec(code, body.len() as nat),
{
    let n = body.len();
    String::from_str("HTTP/1.1 ").concat(decimal(code as u64).as_str()).concat(" ").concat(
        status_reason(code),
    ).concat("\r\ncontent-type: application/json; charset=utf-8\r\ncontent-length: ").concat(
        decimal(n as u64).as_str(),
    ).concat(
        "\r\naccess-control-allow-origin: *\r\naccess-control-allow-methods: GET, POST, OPTIONS\r\naccess-control-allow-headers: content-type\r\nconnection: close\r\n\r\n",
    )
}

/// Head of an HTML response with the given body.
pub open spec fn html_head_spec(body_bytes: nat) -> Seq<char> {
    "HTTP/1.1 200 OK\r\ncontent-type: text/html; charset=utf-8\r\ncontent-length: "@
        + decimal_spec(body_bytes)
        + "\r\naccess-control-allow-origin: *\r\nconnection: close\r\n\r\n"@
}

/// Builds the head of an HTML response whose body is `body`.
pub fn html_response_head(body: &str) -> (r: String)
    ensures
        r@ == html_head_spec(body.len() as nat),
{
    let n = body.len();
    String::from_str("HTTP/1.1 200 OK\r\ncontent-type: text/html; charset=utf-8\r\ncontent-length: ").concat(
        decimal(n as u64).as_str(),
    ).concat("\r\naccess-control-allow-origin: *\r\nconnection: close\r\n\r\n")
}

} // verus!
