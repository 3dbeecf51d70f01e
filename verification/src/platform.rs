//! Platform seams: where shell-owned state lives, the names of generated
//! scripts, and reading a `where` listing. Paths are carried as strings;
//! joining goes through `std::path`.
use vstd::prelude::*;

use crate::text::{lines, lines_spec, lossy_text, trim, trim_spec, utf8_lossy};

verus! {

/// `base` joined with the relative component `part` by `std::path::Path::join`
/// (the separator is the build target's).
pub uninterp spec fn joined_path(base: Seq<char>, part: Seq<char>) -> Seq<char>;

/// Calls `Path::join` and reads the result back as text. Claimed: for one
/// build target the result is a function of the two strings alone.
#[verifier::external_body]
pub(crate) fn join(base: &str, part: &str) -> (r: String)
    ensures
        r@ == joined_path(base@, part@),
{
    std::path::Path::new(base).join(part).to_string_lossy().into_owned()
}

/// The directory part of a path (`Path::parent`), `None` at a root.
pub uninterp spec fn parent_path(path: Seq<char>) -> Option<Seq<char>>;

/// Calls `Path::parent` and reads the result back as text. Claimed: the
/// result is a function of the path text alone.
#[verifier::external_body]
fn path_parent(path: &str) -> (r: Option<String>)
    ensures
        r.deep_view() == parent_path(path@),
{
    std::path::Path::new(path).parent().map(|p| p.to_string_lossy().into_owned())
}

/// The final component of a path (`Path::file_name`).
pub uninterp spec fn file_name_of(path: Seq<char>) -> Option<Seq<char>>;

/// Calls `Path::file_name` and reads the result back as text. Claimed: the
/// result is a function of the path text alone.
#[verifier::external_body]
fn path_file_name(path: &str) -> (r: Option<String>)
    ensures
        r.deep_view() == file_name_of(path@),
{
    std::path::Path::new(path).file_name().map(|p| p.to_string_lossy().into_owned())
}

/// Marker file next to the exe that switches the binary to portable mode.
pub fn portable_marker_file() -> (r: &'static str)
    ensures
        r@ == "portable.txt"@,
{
    "portable.txt"
}

/// Extension of generated shell scripts.
pub fn script_ext() -> (r: &'static str)
    ensures
        r@ == "cmd"@,
{
    "cmd"
}

/// Where the portable marker would sit for an exe in `exe_dir`.
pub fn portable_marker_path(exe_dir: &str) -> (r: String)
    ensures
        r@ == joined_path(exe_dir@, "portable.txt"@),
{
    join(exe_dir, portable_marker_file())
}

/// The directory of the running exe, from the exe's path.
pub fn exe_dir_of(exe_path: &str) -> (r: Option<String>)
    ensures
        r.deep_view() == parent_path(exe_path@),
{
    path_parent(exe_path)
}

/// Portable root: `<exe dir>/data` when the marker sits beside the exe.
pub fn portable_root(exe_dir: Option<&str>, marker_present: bool) -> (r: Option<String>)
    ensures
        match exe_dir {
            Some(d) => if marker_present {
                r matches Some(root) && root@ == joined_path(d@, "data"@)
            } else {
                r is None
            },
            None => r is None,
        },
{
    match exe_dir {
        Some(d) => if marker_present {
            Some(join(d, "data"))
        } else {
            None
        },
        None => None,
    }
}

/// Per-user root for shell-owned state: the portable root when there is one,
/// else `<LOCALAPPDATA>/dsh-desktop`.
pub fn app_data_dir(portable_root: Option<&str>, local_app_data: Option<&str>) -> (r: Option<
    String,
>)
    ensures
        match portable_root {
            Some(p) => r matches Some(d) && d@ == p@,
            None => match local_app_data {
                Some(base) => r matches Some(d) && d@ == joined_path(base@, "dsh-desktop"@),
                None => r is None,
            },
        },
{
    match portable_root {
        Some(p) => Some(String::from_str(p)),
        None => match local_app_data {
            Some(base) => Some(join(base, "dsh-desktop")),
            None => None,
        },
    }
}

/// Directory of the shell's settings: the portable root when there is one,
/// else `<APPDATA>/dsh-desktop`.
pub fn settings_dir(portable_root: Option<&str>, roaming_app_data: Option<&str>) -> (r: Option<
    String,
>)
    ensures
        match portable_root {
            Some(p) => r matches Some(d) && d@ == p@,
            None => match roaming_app_data {
                Some(base) => r matches Some(d) && d@ == joined_path(base@, "dsh-desktop"@),
                None => r is None,
            },
        },
{
    app_data_dir(portable_root, roaming_app_data)
}

/// One-line description of where shell state lives.
pub fn state_root_note(portable_root: Option<&str>, app_data_dir: Option<&str>) -> (r: String)
    ensures
        r@ == match (portable_root, app_data_dir) {
            (Some(root), _) => "portable — state in "@ + root@,
            (None, Some(root)) => "per-user — state in "@ + root@,
            (None, None) => "per-user — no state root resolved"@,
        },
{
    match (portable_root, app_data_dir) {
        (Some(root), _) => String::from_str("portable — state in ").concat(root),
        (None, Some(root)) => String::from_str("per-user — state in ").concat(root),
        (None, None) => String::from_str("per-user — no state root resolved"),
    }
}

fn child_of(dir: Option<&str>, name: &str) -> (r: Option<String>)
    ensures
        match dir {
            Some(d) => r matches Some(p) && p@ == joined_path(d@, name@),
            None => r is None,
        },
{
    match dir {
        Some(d) => Some(join(d, name)),
        None => None,
    }
}

/// Home of the packaged backend: `<app data>/dsh-src`.
pub fn packaged_dir(app_data_dir: Option<&str>) -> (r: Option<String>)
    ensures
        match app_data_dir {
            Some(d) => r matches Some(p) && p@ == joined_path(d@, "dsh-src"@),
            None => r is None,
        },
{
    child_of(app_data_dir, "dsh-src")
}

/// Home of the staged browser plugin copy: `<app data>/dsh-browser`.
pub fn bundled_browser_dir(app_data_dir: Option<&str>) -> (r: Option<String>)
    ensures
        match app_data_dir {
            Some(d) => r matches Some(p) && p@ == joined_path(d@, "dsh-browser"@),
            None => r is None,
        },
{
    child_of(app_data_dir, "dsh-browser")
}

/// Where the detached updater leaves its result: `<app data>/update-status.json`.
pub fn update_status_path(app_data_dir: Option<&str>) -> (r: Option<String>)
    ensures
        match app_data_dir {
            Some(d) => r matches Some(p) && p@ == joined_path(d@, "update-status.json"@),
            None => r is None,
        },
{
    child_of(app_data_dir, "update-status.json")
}

fn script_in(dir: &str, stem: &str) -> (r: String)
    ensures
        r@ == joined_path(dir@, stem@ + "."@ + "cmd"@),
{
    let name = String::from_str(stem).concat(".").concat(script_ext());
    join(dir, name.as_str())
}

/// Generated backend launcher inside the packaged dir.
pub fn packaged_launcher_file(dir: &str) -> (r: String)
    ensures
        r@ == joined_path(dir@, "dsh-packaged"@ + "."@ + "cmd"@),
{
    script_in(dir, "dsh-packaged")
}

/// Detached updater inside the packaged dir.
pub fn updater_file(dir: &str) -> (r: String)
    ensures
        r@ == joined_path(dir@, "updater"@ + "."@ + "cmd"@),
{
    script_in(dir, "updater")
}

/// Dev-only shim next to the shell exe.
pub fn dev_shim_file(exe_dir: &str) -> (r: String)
    ensures
        r@ == joined_path(exe_dir@, "dsh"@ + "."@ + "cmd"@),
{
    script_in(exe_dir, "dsh")
}

/// Default download destination: `<USERPROFILE>/Downloads`, or the
/// temporary directory when the profile is unknown.
pub fn default_downloads_dir(user_profile: Option<&str>, temp_dir: &str) -> (r: String)
    ensures
        r@ == match user_profile {
            Some(home) => joined_path(home@, "Downloads"@),
            None => temp_dir@,
        },
{
    match user_profile {
        Some(home) => join(home, "Downloads"),
        None => String::from_str(temp_dir),
    }
}

/// The shell's settings file: `settings.json` in the settings directory
/// (the portable root when there is one, else `<APPDATA>/dsh-desktop`), or
/// `dsh-desktop-settings.json` in the temporary directory when neither is
/// known.
pub fn settings_file(portable_root: Option<&str>, roaming_app_data: Option<&str>, temp_dir: &str) -> (r:
    String)
    ensures
        r@ == match portable_root {
            Some(p) => joined_path(p@, "settings.json"@),
            None => match roaming_app_data {
                Some(base) => joined_path(joined_path(base@, "dsh-desktop"@), "settings.json"@),
                None => joined_path(temp_dir@, "dsh-desktop-settings.json"@),
            },
        },
{
    match settings_dir(portable_root, roaming_app_data) {
        Some(d) => join(d.as_str(), "settings.json"),
        None => join(temp_dir, "dsh-desktop-settings.json"),
    }
}

/// The entries of a path listing: each line trimmed, blank lines dropped.
pub open spec fn listed_paths(ls: Seq<Seq<char>>) -> Seq<Seq<char>>
    decreases ls.len(),
{
    if ls.len() == 0 {
        Seq::empty()
    } else {
        let t = trim_spec(ls[0]);
        (if t.len() > 0 { seq![t] } else { Seq::empty() }) + listed_paths(ls.drop_first())
    }
}

/// The hits a `where` run reported: nothing unless it succeeded, else every
/// non-blank line of its output, trimmed, in order.
pub open spec fn where_hits_spec(success: bool, stdout: Seq<u8>) -> Seq<Seq<char>> {
    if success {
        listed_paths(lines_spec(lossy_text(stdout)))
    } else {
        Seq::empty()
    }
}

/// Every hit of a `where`/`which` run, in order, from its exit status and
/// raw standard output.
pub fn find_on_path_all(success: bool, stdout: &[u8]) -> (r: Vec<String>)
    ensures
        r.deep_view() == where_hits_spec(success, stdout@),
{
    let mut out: Vec<String> = Vec::new();
    if !success {
        assert(out.deep_view() =~= Seq::<Seq<char>>::empty());
        return out;
    }
    let text = utf8_lossy(stdout);
    let ls = lines(text.as_str());
    let ghost lv = ls.deep_view();
    let mut k: usize = 0;
    assert(lv.skip(0) =~= lv);
    assert(out.deep_view() =~= Seq::<Seq<char>>::empty());
    while k < ls.len()
        invariant
            lv == ls.deep_view(),
            k <= ls.len(),
            listed_paths(lv) == out.deep_view() + listed_paths(lv.skip(k as int)),
        decreases ls.len() - k,
    {
        assert(lv.skip(k as int)[0] == ls@[k as int]@);
        assert(lv.skip(k as int).drop_first() =~= lv.skip(k + 1));
        let t = trim(ls[k].as_str());
        let ghost before = out.deep_view();
        if t.unicode_len() > 0 {
            out.push(String::from_str(t));
            assert(out.deep_view() =~= before + seq![t@]);
        } else {
            assert(out.deep_view() =~= before + Seq::<Seq<char>>::empty());
        }
        k = k + 1;
    }
    assert(lv.skip(ls.len() as int) =~= Seq::<Seq<char>>::empty());
    assert(out.deep_view() =~= out.deep_view() + Seq::<Seq<char>>::empty());
    out
}

/// The first hit of a `where`/`which` run, if any.
pub fn find_on_path(success: bool, stdout: &[u8]) -> (r: Option<String>)
    ensures
        match r {
            Some(p) => where_hits_spec(success, stdout@).len() > 0 && p@ == where_hits_spec(
                success,
                stdout@,
            )[0],
            None => where_hits_spec(success, stdout@).len() == 0,
        },
{
    let mut all = find_on_path_all(success, stdout);
    if all.len() == 0 {
        None
    } else {
        Some(all.remove(0))
    }
}

/// The file name and the folder of a saved download, for its toast:
/// `download` and empty when the path has no such parts.
pub fn saved_file_parts(path: &str) -> (r: (String, String))
    ensures
        r.0@ == match file_name_of(path@) {
            Some(f) => f,
            None => "download"@,
        },
        r.1@ == match parent_path(path@) {
            Some(d) => d,
            None => Seq::empty(),
        },
{
    let file = match path_file_name(path) {
        Some(f) => f,
        None => String::from_str("download"),
    };
    let folder = match path_parent(path) {
        Some(d) => d,
        None => String::new(),
    };
    (file, folder)
}

} // verus!
