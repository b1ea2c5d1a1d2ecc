use vstd::prelude::*;
use vstd::string::*;
use crate::text::{decimal, last_index_of, last_position, push_decimal};

verus! {

/// Name under which the backend executable is bundled.
pub const SIDECAR_NAME: &'static str = "ionicx-api";

/// Directory name of the application's data under a platform data root.
pub const APP_DATA_DIR_NAME: &'static str = "ionicX";

/// Whether `c` is white space in Unicode's sense (property White_Space).
pub open spec fn is_white_space(c: char) -> bool {
    ('\u{9}' <= c && c <= '\u{d}') || c == ' ' || c == '\u{85}' || c == '\u{a0}' || c == '\u{1680}'
        || ('\u{2000}' <= c && c <= '\u{200a}') || c == '\u{2028}' || c == '\u{2029}' || c
        == '\u{202f}' || c == '\u{205f}' || c == '\u{3000}'
}

/// Whether `s` is empty once white space is trimmed from both ends.
pub open spec fn is_blank_text(s: Seq<char>) -> bool {
    forall|i: int| 0 <= i < s.len() ==> is_white_space(#[trigger] s[i])
}

fn white_space(c: char) -> (r: bool)
    ensures
        r == is_white_space(c),
{
    ('\u{9}' <= c && c <= '\u{d}') || c == ' ' || c == '\u{85}' || c == '\u{a0}' || c == '\u{1680}'
        || ('\u{2000}' <= c && c <= '\u{200a}') || c == '\u{2028}' || c == '\u{2029}' || c
        == '\u{202f}' || c == '\u{205f}' || c == '\u{3000}'
}

/// Whether `s` holds nothing but white space.
pub fn is_blank(s: &str) -> (r: bool)
    ensures
        r == is_blank_text(s@),
{
    let n = s.unicode_len();
    let mut i: usize = 0;
    while i < n
        invariant
            n == s@.len(),
            i <= n,
            forall|k: int| 0 <= k < i ==> is_white_space(#[trigger] s@[k]),
        decreases n - i,
    {
        if !white_space(s.get_char(i)) {
            return false;
        }
        i = i + 1;
    }
    true
}

/// The environment the backend is launched with, as (name, value) pairs.
pub open spec fn spawn_env_text(data_dir: Seq<char>, log_level: Option<Seq<char>>) -> Seq<(Seq<char>, Seq<char>)> {
    seq![
        ("APP_DATA_DIR"@, data_dir),
        ("PORT"@, "0"@),
        ("LOG_LEVEL"@, match log_level { Some(l) => l, None => "info"@ }),
        ("CORS_ALLOW_ALL"@, "0"@),
    ]
}

pub open spec fn pairs_view(v: Seq<(String, String)>) -> Seq<(Seq<char>, Seq<char>)> {
    v.map_values(|p: (String, String)| (p.0@, p.1@))
}

pub open spec fn opt_text(o: Option<String>) -> Option<Seq<char>> {
    match o {
        Some(s) => Some(s@),
        None => None,
    }
}

/// The environment of a backend launch: its data directory, a port of zero
/// (any free port), the requested log level (`info` when none is given) and
/// permissive cross-origin handling switched off.
pub fn spawn_environment(data_dir: &str, log_level: Option<String>) -> (r: Vec<(String, String)>)
    ensures
        pairs_view(r@) == spawn_env_text(data_dir@, opt_text(log_level)),
{
    let level = match log_level {
        Some(l) => l,
        None => String::from_str("info"),
    };
    let r = vec![
        (String::from_str("APP_DATA_DIR"), String::from_str(data_dir)),
        (String::from_str("PORT"), String::from_str("0")),
        (String::from_str("LOG_LEVEL"), level),
        (String::from_str("CORS_ALLOW_ALL"), String::from_str("0")),
    ];
    assert(pairs_view(r@) =~= spawn_env_text(data_dir@, opt_text(log_level)));
    r
}

/// What the data directory is resolved from: the relevant environment
/// variables (absent when unset), the system's temporary directory, and the
/// platform.
pub struct DataDirInputs {
    /// `APP_DATA_DIR`, an explicit override.
    pub app_data_dir: Option<String>,
    /// `APPDATA` (Windows).
    pub appdata: Option<String>,
    /// `USERPROFILE` (Windows).
    pub userprofile: Option<String>,
    /// `HOME`.
    pub home: Option<String>,
    /// `XDG_DATA_HOME`.
    pub xdg_data_home: Option<String>,
    pub temp_dir: String,
    pub windows: bool,
    pub macos: bool,
}

/// The data directory as path components to join in order: an explicit
/// non-blank override wins; then, on Windows, `APPDATA` or `USERPROFILE`;
/// then, given `HOME`, the macOS application-support folder, `XDG_DATA_HOME`,
/// or `~/.local/share`; else the temporary directory.
pub open spec fn data_dir_parts(e: &DataDirInputs) -> Seq<Seq<char>> {
    let name = "ionicX"@;
    if e.app_data_dir is Some && !is_blank_text(e.app_data_dir->Some_0@) {
        seq![e.app_data_dir->Some_0@]
    } else if e.windows && e.appdata is Some {
        seq![e.appdata->Some_0@, name]
    } else if e.windows && e.userprofile is Some {
        seq![e.userprofile->Some_0@, name]
    } else if e.home is Some && e.macos {
        seq![e.home->Some_0@, "Library"@, "Application Support"@, name]
    } else if e.home is Some && e.xdg_data_home is Some {
        seq![e.xdg_data_home->Some_0@, name]
    } else if e.home is Some {
        seq![e.home->Some_0@, ".local"@, "share"@, name]
    } else {
        seq![e.temp_dir@, name]
    }
}

pub open spec fn texts_view(v: Seq<String>) -> Seq<Seq<char>> {
    v.map_values(|s: String| s@)
}

fn owned(s: &Option<String>) -> (r: String)
    requires
        s is Some,
    ensures
        r@ == s->Some_0@,
{
    match s {
        Some(v) => v.clone(),
        None => String::new(),
    }
}

/// Resolves the data directory, as path components to join in order.
pub fn app_data_dir_parts(e: &DataDirInputs) -> (r: Vec<String>)
    ensures
        texts_view(r@) == data_dir_parts(e),
{
    let r = if e.app_data_dir.is_some() && !is_blank(owned(&e.app_data_dir).as_str()) {
        vec![owned(&e.app_data_dir)]
    } else if e.windows && e.appdata.is_some() {
        vec![owned(&e.appdata), String::from_str(APP_DATA_DIR_NAME)]
    } else if e.windows && e.userprofile.is_some() {
        vec![owned(&e.userprofile), String::from_str(APP_DATA_DIR_NAME)]
    } else if e.home.is_some() && e.macos {
        vec![
            owned(&e.home),
            String::from_str("Library"),
            String::from_str("Application Support"),
            String::from_str(APP_DATA_DIR_NAME),
        ]
    } else if e.home.is_some() && e.xdg_data_home.is_some() {
        vec![owned(&e.xdg_data_home), String::from_str(APP_DATA_DIR_NAME)]
    } else if e.home.is_some() {
        vec![
            owned(&e.home),
            String::from_str(".local"),
            String::from_str("share"),
            String::from_str(APP_DATA_DIR_NAME),
        ]
    } else {
        vec![e.temp_dir.clone(), String::from_str(APP_DATA_DIR_NAME)]
    };
    assert(texts_view(r@) =~= data_dir_parts(e));
    r
}

/// Whether two texts are equal, character by character.
pub fn same_text(a: &str, b: &str) -> (r: bool)
    ensures
        r == (a@ == b@),
{
    let n = a.unicode_len();
    if n != b.unicode_len() {
        return false;
    }
    let mut i: usize = 0;
    while i < n
        invariant
            n == a@.len() == b@.len(),
            i <= n,
            forall|k: int| 0 <= k < i ==> a@[k] == b@[k],
        decreases n - i,
    {
        if a.get_char(i) != b.get_char(i) {
            return false;
        }
        i = i + 1;
    }
    assert(a@ =~= b@);
    true
}

/// A single path component naming a file: not empty, free of separators,
/// and neither `.` nor `..`.
pub open spec fn is_plain_file_name(s: Seq<char>) -> bool {
    &&& s.len() > 0
    &&& forall|i: int| 0 <= i < s.len() ==> #[trigger] s[i] != '/' && s[i] != '\\'
    &&& s != "."@
    &&& s != ".."@
}

/// Position of the dot that starts a file name's extension, or -1 when it has
/// none: the last dot, unless that dot opens the name.
pub open spec fn extension_dot(name: Seq<char>) -> int {
    let k = last_index_of(name, '.');
    if k > 0 {
        k
    } else {
        -1
    }
}

/// The executable's file name on the platform: on Windows `.exe` is added to
/// a name without extension; elsewhere an `.exe` extension is dropped.
pub open spec fn executable_name(command: Seq<char>, windows: bool) -> Seq<char> {
    let k = extension_dot(command);
    if windows {
        if k < 0 {
            command + ".exe"@
        } else {
            command
        }
    } else if k >= 0 && command.subrange(k + 1, command.len() as int) == "exe"@ {
        command.subrange(0, k)
    } else {
        command
    }
}

/// Where the bundled backend executable lies, relative to the launcher's own
/// directory: whether to go up one level first (the launcher runs from a
/// `deps` directory), and the executable's file name there.
pub fn sidecar_location(exe_dir_name: Option<String>, command: &str, windows: bool) -> (r: (bool, String))
    requires
        is_plain_file_name(command@),
    ensures
        r.0 == (exe_dir_name is Some && exe_dir_name->Some_0@ == "deps"@),
        r.1@ == executable_name(command@, windows),
{
    let up = match &exe_dir_name {
        Some(d) => same_text(d.as_str(), "deps"),
        None => false,
    };
    let n = command.unicode_len();
    let dot = match last_position(command, '.') {
        Some(k) => if k > 0 { Some(k) } else { None },
        None => None,
    };
    let name = if windows {
        match dot {
            None => String::from_str(command).concat(".exe"),
            Some(_) => String::from_str(command),
        }
    } else {
        match dot {
            Some(k) => {
                if same_text(command.substring_char(k + 1, n), "exe") {
                    String::from_str(command.substring_char(0, k))
                } else {
                    String::from_str(command)
                }
            },
            None => String::from_str(command),
        }
    };
    (up, name)
}

/// Label of a live-output window opened without one: `external-live-<id>`.
pub open spec fn window_label_text(id: nat) -> Seq<char> {
    "external-live-"@ + decimal(id)
}

/// The label of the `id`-th live-output window opened without a label.
pub fn default_window_label(id: u64) -> (r: String)
    ensures
        r@ == window_label_text(id as nat),
{
    let mut s = String::from_str("external-live-");
    push_decimal(&mut s, id);
    s
}

/// The page a live-output window shows: the one asked for, else
/// `external-live`.
pub fn window_path(url: Option<String>) -> (r: String)
    ensures
        r@ == match url {
            Some(u) => u@,
            None => "external-live"@,
        },
{
    match url {
        Some(u) => u,
        None => String::from_str("external-live"),
    }
}

} // verus!
