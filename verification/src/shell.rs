//! The commands FileFloat hands to Windows: PowerShell scripts for the
//! clipboard and the recycle bin, the registry edits behind "start with
//! Windows", the Explorer and `start` invocations, the files of the bundled
//! Everything engine, and how each command's outcome is reported.

use vstd::prelude::*;
use crate::queries::{decimal, decimal_text};
use crate::search::{self, path_exists, path_join};
use crate::text::{self, chars_of, string_from_chars, trim_str, upper_str};

verus! {

/// A program to run and its arguments.
#[derive(Clone, Debug, PartialEq, Eq)]
pub struct ExternalCommand {
    pub program: String,
    pub args: Vec<String>,
}

/// The texts of a list of strings.
pub open spec fn texts(v: Seq<String>) -> Seq<Seq<char>> {
    v.map_values(|s: String| s@)
}

/// A PowerShell script to run from a file, with the environment variables
/// that carry its input.
#[derive(Clone, Debug, PartialEq, Eq)]
pub struct PowerShellScript {
    pub script: String,
    pub env: Vec<(String, String)>,
}

/// The names and values of a list of environment variables.
pub open spec fn env_view(v: Seq<(String, String)>) -> Seq<(Seq<char>, Seq<char>)> {
    v.map_values(|p: (String, String)| (p.0@, p.1@))
}

/// Builds a list of strings from string slices.
pub fn strings_of(items: &Vec<&str>) -> (r: Vec<String>)
    ensures
        r.len() == items.len(),
        forall|j: int| 0 <= j < r.len() ==> (#[trigger] r@[j])@ == items@[j]@,
{
    let mut out: Vec<String> = Vec::new();
    let mut i: usize = 0;
    while i < items.len()
        invariant
            i <= items.len(),
            out.len() == i,
            forall|j: int| 0 <= j < i ==> (#[trigger] out@[j])@ == items@[j]@,
        decreases items.len() - i,
    {
        out.push(String::from_str(items[i]));
        i = i + 1;
    }
    out
}

/// The script that puts the text in `FILEFLOAT_TEXT` on the clipboard.
pub const CLIPBOARD_TEXT_SCRIPT: &'static str = r#"
$ErrorActionPreference = 'Stop'
Add-Type -AssemblyName System.Windows.Forms
$text = [Environment]::GetEnvironmentVariable('FILEFLOAT_TEXT')
[System.Windows.Forms.Clipboard]::SetText($text)
"#;

/// The script that puts the files listed (one per line) in `FILEFLOAT_PATHS`
/// on the clipboard, to be moved when `FILEFLOAT_CUT` is `1`, else copied.
pub const CLIPBOARD_FILES_SCRIPT: &'static str = r#"
$ErrorActionPreference = 'Stop'
Add-Type -AssemblyName System.Windows.Forms
$raw = [Environment]::GetEnvironmentVariable('FILEFLOAT_PATHS')
if ([string]::IsNullOrWhiteSpace($raw)) {
  throw 'No file paths provided'
}
$paths = $raw -split "`n" | ForEach-Object { $_.Trim() } | Where-Object { $_ }
if (-not $paths -or $paths.Count -eq 0) {
  throw 'No file paths provided'
}
$files = New-Object System.Collections.Specialized.StringCollection
foreach ($path in $paths) {
  [void]$files.Add($path)
}
$data = New-Object System.Windows.Forms.DataObject
$data.SetFileDropList($files)
$effect = if ([Environment]::GetEnvironmentVariable('FILEFLOAT_CUT') -eq '1') { 2 } else { 1 }
$bytes = [BitConverter]::GetBytes([int32]$effect)
$stream = New-Object System.IO.MemoryStream
$stream.Write($bytes, 0, $bytes.Length)
$stream.Position = 0
$data.SetData('Preferred DropEffect', $stream)
[System.Windows.Forms.Clipboard]::SetDataObject($data, $true)
"#;

/// The script that sends the file or folder in `FILEFLOAT_TARGET` to the recycle bin.
pub const RECYCLE_SCRIPT: &'static str = r#"
$ErrorActionPreference = 'Stop'
Add-Type -AssemblyName Microsoft.VisualBasic
$path = [Environment]::GetEnvironmentVariable('FILEFLOAT_TARGET')
if ([string]::IsNullOrWhiteSpace($path)) {
  throw 'Missing target path'
}
if (Test-Path -LiteralPath $path -PathType Container) {
  [Microsoft.VisualBasic.FileIO.FileSystem]::DeleteDirectory($path, 'OnlyErrorDialogs', 'SendToRecycleBin')
} elseif (Test-Path -LiteralPath $path -PathType Leaf) {
  [Microsoft.VisualBasic.FileIO.FileSystem]::DeleteFile($path, 'OnlyErrorDialogs', 'SendToRecycleBin')
} else {
  throw "Path not found: $path"
}
"#;

/// Puts `text` on the clipboard.
pub fn copy_text_to_clipboard(text: &str) -> (r: PowerShellScript)
    ensures
        r.script@ == CLIPBOARD_TEXT_SCRIPT@,
        env_view(r.env@) == seq![("FILEFLOAT_TEXT"@, text@)],
{
    let mut env: Vec<(String, String)> = Vec::new();
    env.push((String::from_str("FILEFLOAT_TEXT"), String::from_str(text)));
    assert(env_view(env@) =~= seq![("FILEFLOAT_TEXT"@, text@)]);
    PowerShellScript { script: String::from_str(CLIPBOARD_TEXT_SCRIPT), env }
}

/// `list` joined with `sep` between its items.
pub open spec fn joined(list: Seq<Seq<char>>, sep: Seq<char>) -> Seq<char>
    decreases list.len(),
{
    if list.len() == 0 {
        Seq::empty()
    } else if list.len() == 1 {
        list[0]
    } else {
        joined(list.drop_last(), sep) + sep + list.last()
    }
}

/// `[String]::join(sep)`.
pub fn join_strings(list: &Vec<String>, sep: &str) -> (r: String)
    ensures
        r@ == joined(texts(list@), sep@),
{
    let mut out = String::new();
    let mut i: usize = 0;
    while i < list.len()
        invariant
            i <= list.len(),
            out@ == joined(texts(list@.subrange(0, i as int)), sep@),
        decreases list.len() - i,
    {
        let ghost before = texts(list@.subrange(0, i as int));
        if i > 0 {
            out.append(sep);
        }
        out.append(list[i].as_str());
        proof {
            let after = texts(list@.subrange(0, i + 1));
            assert(after.drop_last() =~= before);
            assert(after.last() == list@[i as int]@);
            if i == 0 {
                assert(after =~= seq![list@[0]@]);
            }
        }
        i = i + 1;
    }
    assert(list@.subrange(0, list.len() as int) =~= list@);
    out
}

/// Puts the files `paths` on the clipboard, to be moved (`cut`) or copied on paste.
pub fn copy_file_paths_to_clipboard(paths: &Vec<String>, cut: bool) -> (r: PowerShellScript)
    ensures
        r.script@ == CLIPBOARD_FILES_SCRIPT@,
        env_view(r.env@) == seq![
            ("FILEFLOAT_PATHS"@, joined(texts(paths@), seq!['\n'])),
            ("FILEFLOAT_CUT"@, if cut { "1"@ } else { "0"@ }),
        ],
{
    let newline_chars: Vec<char> = vec!['\n'];
    assert(newline_chars@ =~= seq!['\n']);
    let newline = string_from_chars(&newline_chars);
    let joined_paths = join_strings(paths, newline.as_str());
    let flag = if cut {
        String::from_str("1")
    } else {
        String::from_str("0")
    };
    let mut env: Vec<(String, String)> = Vec::new();
    env.push((String::from_str("FILEFLOAT_PATHS"), joined_paths));
    env.push((String::from_str("FILEFLOAT_CUT"), flag));
    assert(env_view(env@) =~= seq![
        ("FILEFLOAT_PATHS"@, joined(texts(paths@), seq!['\n'])),
        ("FILEFLOAT_CUT"@, if cut { "1"@ } else { "0"@ }),
    ]);
    PowerShellScript { script: String::from_str(CLIPBOARD_FILES_SCRIPT), env }
}

/// Sends the file or folder at `path` to the recycle bin.
pub fn delete_path_to_recycle_bin(path: &str) -> (r: PowerShellScript)
    ensures
        r.script@ == RECYCLE_SCRIPT@,
        env_view(r.env@) == seq![("FILEFLOAT_TARGET"@, path@)],
{
    let mut env: Vec<(String, String)> = Vec::new();
    env.push((String::from_str("FILEFLOAT_TARGET"), String::from_str(path)));
    assert(env_view(env@) =~= seq![("FILEFLOAT_TARGET"@, path@)]);
    PowerShellScript { script: String::from_str(RECYCLE_SCRIPT), env }
}

/// The message a failed command reports: its trimmed error output, or
/// `fallback` when that is empty.
pub open spec fn failure_text(stderr: Seq<char>, fallback: Seq<char>) -> Seq<char> {
    if text::trim(stderr).len() == 0 {
        fallback
    } else {
        text::trim(stderr)
    }
}

pub fn failure_message(stderr: &str, fallback: &str) -> (r: String)
    ensures
        r@ == failure_text(stderr@, fallback@),
{
    let t = trim_str(stderr);
    if t.unicode_len() == 0 {
        String::from_str(fallback)
    } else {
        t
    }
}

/// The outcome of a PowerShell script run from a file: success, or the
/// script's trimmed error output (`PowerShell command failed` when it wrote none).
pub fn run_hidden_powershell_script_ok(succeeded: bool, stderr: &str) -> (r: Result<(), String>)
    ensures
        succeeded ==> r is Ok,
        !succeeded ==> (r matches Err(e) && e@ == failure_text(stderr@, "PowerShell command failed"@)),
{
    if succeeded {
        Ok(())
    } else {
        Err(failure_message(stderr, "PowerShell command failed"))
    }
}

/// The outcome of an inline PowerShell command: its output on success,
/// else its trimmed error output.
pub fn powershell_output(succeeded: bool, stdout: String, stderr: &str) -> (r: Result<String, String>)
    ensures
        succeeded ==> (r matches Ok(o) && o@ == stdout@),
        !succeeded ==> (r matches Err(e) && e@ == text::trim(stderr@)),
{
    if succeeded {
        Ok(stdout)
    } else {
        Err(trim_str(stderr))
    }
}

/// The arguments that run `script` in a hidden, non-interactive PowerShell.
pub fn powershell_command_args(script: &str) -> (r: Vec<String>)
    ensures
        texts(r@) == seq![
            "-NoLogo"@,
            "-NoProfile"@,
            "-NonInteractive"@,
            "-ExecutionPolicy"@,
            "Bypass"@,
            "-WindowStyle"@,
            "Hidden"@,
            "-Command"@,
            script@,
        ],
{
    let r = strings_of(
        &vec![
            "-NoLogo",
            "-NoProfile",
            "-NonInteractive",
            "-ExecutionPolicy",
            "Bypass",
            "-WindowStyle",
            "Hidden",
            "-Command",
            script,
        ],
    );
    assert(texts(r@) =~= seq![
        "-NoLogo"@,
        "-NoProfile"@,
        "-NonInteractive"@,
        "-ExecutionPolicy"@,
        "Bypass"@,
        "-WindowStyle"@,
        "Hidden"@,
        "-Command"@,
        script@,
    ]);
    r
}

/// The arguments that run the script file at `script_path` in a hidden,
/// non-interactive, single-threaded PowerShell.
pub fn powershell_file_args(script_path: &str) -> (r: Vec<String>)
    ensures
        texts(r@) == seq![
            "-NoProfile"@,
            "-NonInteractive"@,
            "-ExecutionPolicy"@,
            "Bypass"@,
            "-STA"@,
            "-WindowStyle"@,
            "Hidden"@,
            "-File"@,
            script_path@,
        ],
{
    let r = strings_of(
        &vec![
            "-NoProfile",
            "-NonInteractive",
            "-ExecutionPolicy",
            "Bypass",
            "-STA",
            "-WindowStyle",
            "Hidden",
            "-File",
            script_path,
        ],
    );
    assert(texts(r@) =~= seq![
        "-NoProfile"@,
        "-NonInteractive"@,
        "-ExecutionPolicy"@,
        "Bypass"@,
        "-STA"@,
        "-WindowStyle"@,
        "Hidden"@,
        "-File"@,
        script_path@,
    ]);
    r
}

/// The name of the temporary file a script is written to: stamped with the
/// time in nanoseconds and the process id.
pub fn powershell_script_file_name(stamp: u128, pid: u32) -> (r: String)
    ensures
        r@ == "filefloat-"@ + decimal(stamp as nat) + "-"@ + decimal(pid as nat) + ".ps1"@,
{
    let mut name = String::from_str("filefloat-");
    let s = decimal_text(stamp);
    name.append(s.as_str());
    name.append("-");
    let p = decimal_text(pid as u128);
    name.append(p.as_str());
    name.append(".ps1");
    name
}

/// Opens `target` with the program Windows associates with it.
pub fn open_with_default_app(target: &str) -> (r: ExternalCommand)
    ensures
        r.program@ == "cmd"@,
        texts(r.args@) == seq!["/C"@, "start"@, ""@, target@],
{
    let args = strings_of(&vec!["/C", "start", "", target]);
    assert(texts(args@) =~= seq!["/C"@, "start"@, ""@, target@]);
    ExternalCommand { program: String::from_str("cmd"), args }
}

/// Shows the file or folder at `path` selected in Explorer.
pub fn reveal_path(path: &str) -> (r: ExternalCommand)
    ensures
        r.program@ == "explorer"@,
        texts(r.args@) == seq!["/select,"@, path@],
{
    let args = strings_of(&vec!["/select,", path]);
    assert(texts(args@) =~= seq!["/select,"@, path@]);
    ExternalCommand { program: String::from_str("explorer"), args }
}


/// The registry key that lists the programs Windows starts at sign-in.
pub const AUTOSTART_REG_PATH: &'static str = r"HKCU\Software\Microsoft\Windows\CurrentVersion\Run";

/// The value under that key that starts FileFloat.
pub const AUTOSTART_REG_VALUE: &'static str = "FileFloat";

/// Asks the registry whether FileFloat starts with Windows (it does when the command succeeds).
pub fn autostart_query_command() -> (r: ExternalCommand)
    ensures
        r.program@ == "reg.exe"@,
        texts(r.args@) == seq!["query"@, AUTOSTART_REG_PATH@, "/v"@, AUTOSTART_REG_VALUE@],
{
    let args = strings_of(&vec!["query", AUTOSTART_REG_PATH, "/v", AUTOSTART_REG_VALUE]);
    assert(texts(args@) =~= seq!["query"@, AUTOSTART_REG_PATH@, "/v"@, AUTOSTART_REG_VALUE@]);
    ExternalCommand { program: String::from_str("reg.exe"), args }
}

/// Makes Windows start the program at `exe` (quoted) at sign-in.
pub fn autostart_enable_command(exe: &str) -> (r: ExternalCommand)
    ensures
        r.program@ == "reg.exe"@,
        texts(r.args@) == seq![
            "add"@,
            AUTOSTART_REG_PATH@,
            "/v"@,
            AUTOSTART_REG_VALUE@,
            "/t"@,
            "REG_SZ"@,
            "/d"@,
            seq!['"'] + exe@ + seq!['"'],
            "/f"@,
        ],
{
    let quote: Vec<char> = vec!['"'];
    assert(quote@ =~= seq!['"']);
    let mut value = string_from_chars(&quote);
    value.append(exe);
    let closing = string_from_chars(&quote);
    value.append(closing.as_str());
    let args = strings_of(
        &vec![
            "add",
            AUTOSTART_REG_PATH,
            "/v",
            AUTOSTART_REG_VALUE,
            "/t",
            "REG_SZ",
            "/d",
            value.as_str(),
            "/f",
        ],
    );
    assert(texts(args@) =~= seq![
        "add"@,
        AUTOSTART_REG_PATH@,
        "/v"@,
        AUTOSTART_REG_VALUE@,
        "/t"@,
        "REG_SZ"@,
        "/d"@,
        seq!['"'] + exe@ + seq!['"'],
        "/f"@,
    ]);
    ExternalCommand { program: String::from_str("reg.exe"), args }
}

/// Stops Windows from starting FileFloat at sign-in.
pub fn autostart_disable_command() -> (r: ExternalCommand)
    ensures
        r.program@ == "reg.exe"@,
        texts(r.args@) == seq!["delete"@, AUTOSTART_REG_PATH@, "/v"@, AUTOSTART_REG_VALUE@, "/f"@],
{
    let args = strings_of(&vec!["delete", AUTOSTART_REG_PATH, "/v", AUTOSTART_REG_VALUE, "/f"]);
    assert(texts(args@) =~= seq!["delete"@, AUTOSTART_REG_PATH@, "/v"@, AUTOSTART_REG_VALUE@, "/f"@]);
    ExternalCommand { program: String::from_str("reg.exe"), args }
}

/// The outcome of enabling start with Windows: success when the registry
/// edit succeeded, else its error output (or a fixed message).
pub fn autostart_enable_outcome(succeeded: bool, stderr: &str) -> (r: Result<(), String>)
    ensures
        succeeded ==> r is Ok,
        !succeeded ==> (r matches Err(e) && e@ == failure_text(stderr@, "failed to enable auto start"@)),
{
    if succeeded {
        Ok(())
    } else {
        Err(failure_message(stderr, "failed to enable auto start"))
    }
}

/// The outcome of disabling start with Windows: success when the value was
/// deleted or, failing that, when the registry no longer starts FileFloat;
/// else the edit's error output (or a fixed message).
pub fn autostart_disable_outcome(deleted: bool, still_enabled: bool, stderr: &str) -> (r: Result<(), String>)
    ensures
        (deleted || !still_enabled) ==> r is Ok,
        !(deleted || !still_enabled) ==> (r matches Err(e) && e@ == failure_text(
            stderr@,
            "failed to disable auto start"@,
        )),
{
    if deleted || !still_enabled {
        Ok(())
    } else {
        Err(failure_message(stderr, "failed to disable auto start"))
    }
}

/// The name the bundled Everything engine runs under.
pub const EVERYTHING_INSTANCE_NAME: &'static str = "FileFloat";

/// The folder the bundled Everything engine runs from.
pub const EVERYTHING_RUNTIME_DIR_NAME: &'static str = "FileFloat-Everything";

/// The port of the bundled Everything engine's HTTP server.
pub const EVERYTHING_HTTP_PORT: u16 = 18999;

/// Where the files of the bundled Everything engine live.
#[derive(Clone, Debug, PartialEq, Eq)]
pub struct EverythingRuntimePaths {
    pub root: String,
    pub everything_exe: String,
    pub lang: String,
    pub ini: String,
}

/// The configuration file name of the bundled engine's instance.
pub open spec fn everything_ini_name(instance: Seq<char>) -> Seq<char> {
    "Everything-"@ + text::upper(instance) + ".ini"@
}

/// The names the bundled engine's paths are joined from are plain names.
proof fn lemma_runtime_names_plain()
    ensures
        search::plain_name("FileFloat-Everything"@),
        search::plain_name("everything.exe"@),
        search::plain_name("Everything.lng"@),
        search::plain_name("FileFloat"@),
        search::plain_name("Everything-"@),
        search::plain_name(".ini"@),
        EVERYTHING_RUNTIME_DIR_NAME@ == "FileFloat-Everything"@,
        EVERYTHING_INSTANCE_NAME@ == "FileFloat"@,
{
    reveal_strlit("FileFloat");
    reveal_strlit("FileFloat-Everything");
    reveal_strlit("everything.exe");
    reveal_strlit("Everything.lng");
    reveal_strlit("Everything-");
    reveal_strlit(".ini");
    reveal_with_fuel(text::lacks_char, 21);
}

/// Where the bundled Everything engine's files live under the local
/// application-data folder: `FileFloat\FileFloat-Everything`, holding
/// `everything.exe`, `Everything.lng` and the instance's configuration file
/// (each joined as `Path::join` does, see `search::join_fits`).
pub fn everything_runtime_paths(local_app_data: &str) -> (r: EverythingRuntimePaths)
    ensures
        exists|app_dir: Seq<char>|
            #[trigger] search::join_fits(local_app_data@, "FileFloat"@, app_dir)
                && search::join_fits(app_dir, EVERYTHING_RUNTIME_DIR_NAME@, r.root@),
        search::join_fits(r.root@, "everything.exe"@, r.everything_exe@),
        search::join_fits(r.root@, "Everything.lng"@, r.lang@),
        search::join_fits(r.root@, everything_ini_name(EVERYTHING_INSTANCE_NAME@), r.ini@),
        text::ends_with(r.root@, EVERYTHING_RUNTIME_DIR_NAME@),
        text::ends_with(r.everything_exe@, "everything.exe"@),
        text::ends_with(r.lang@, "Everything.lng"@),
        text::ends_with(r.ini@, everything_ini_name(EVERYTHING_INSTANCE_NAME@)),
{
    proof {
        lemma_runtime_names_plain();
    }
    let app_dir = path_join(local_app_data, "FileFloat");
    let root = path_join(app_dir.as_str(), EVERYTHING_RUNTIME_DIR_NAME);
    let everything_exe = path_join(root.as_str(), "everything.exe");
    let lang = path_join(root.as_str(), "Everything.lng");
    let mut ini_name = String::from_str("Everything-");
    let upper_name = upper_str(EVERYTHING_INSTANCE_NAME);
    ini_name.append(upper_name.as_str());
    ini_name.append(".ini");
    proof {
        reveal_strlit("Everything-");
        reveal_strlit(".ini");
        let u = text::upper("FileFloat"@);
        text::lemma_lacks_char_upper("FileFloat"@, '/');
        text::lemma_lacks_char_upper("FileFloat"@, '\\');
        text::lemma_lacks_char_upper("FileFloat"@, ':');
        text::lemma_lacks_char_concat("Everything-"@, u, '/');
        text::lemma_lacks_char_concat("Everything-"@ + u, ".ini"@, '/');
        text::lemma_lacks_char_concat("Everything-"@, u, '\\');
        text::lemma_lacks_char_concat("Everything-"@ + u, ".ini"@, '\\');
        text::lemma_lacks_char_concat("Everything-"@, u, ':');
        text::lemma_lacks_char_concat("Everything-"@ + u, ".ini"@, ':');
        assert(search::plain_name(ini_name@));
    }
    let ini = path_join(root.as_str(), ini_name.as_str());
    assert(search::join_fits(local_app_data@, "FileFloat"@, app_dir@));
    assert(search::join_fits(app_dir@, EVERYTHING_RUNTIME_DIR_NAME@, root@));
    EverythingRuntimePaths { root, everything_exe, lang, ini }
}

/// The configuration the bundled Everything engine runs with.
pub open spec fn everything_ini_text() -> Seq<char> {
    "[Everything]\r\napp_data=0\r\ninstance_name="@ + EVERYTHING_INSTANCE_NAME@
        + "\r\nshow_tray_icon=0\r\nrun_in_background=1\r\nminimize_to_tray=1\r\nrun_as_admin=1\r\ncheck_for_updates_on_startup=0\r\nallow_http_server=1\r\nhttp_server_enabled=1\r\nhttp_server_port="@
        + decimal(EVERYTHING_HTTP_PORT as nat) + "\r\nhttp_server_bindings=127.0.0.1\r\n"@
}

/// The configuration file of the bundled Everything engine: its own
/// instance, no tray icon, its HTTP server on `EVERYTHING_HTTP_PORT` bound to 127.0.0.1.
pub fn everything_ini() -> (r: String)
    ensures
        r@ == everything_ini_text(),
{
    let mut ini = String::from_str("[Everything]\r\napp_data=0\r\ninstance_name=");
    ini.append(EVERYTHING_INSTANCE_NAME);
    ini.append(
        "\r\nshow_tray_icon=0\r\nrun_in_background=1\r\nminimize_to_tray=1\r\nrun_as_admin=1\r\ncheck_for_updates_on_startup=0\r\nallow_http_server=1\r\nhttp_server_enabled=1\r\nhttp_server_port=",
    );
    let port = decimal_text(EVERYTHING_HTTP_PORT as u128);
    ini.append(port.as_str());
    ini.append("\r\nhttp_server_bindings=127.0.0.1\r\n");
    ini
}

/// Starts the bundled Everything engine as FileFloat's instance, with its
/// configuration file `ini_path`, minimized.
pub fn everything_launch_args(ini_path: &str) -> (r: Vec<String>)
    ensures
        texts(r@) == seq![
            "-instance"@,
            EVERYTHING_INSTANCE_NAME@,
            "-config"@,
            ini_path@,
            "-startup"@,
            "-minimized"@,
        ],
{
    let r = strings_of(
        &vec!["-instance", EVERYTHING_INSTANCE_NAME, "-config", ini_path, "-startup", "-minimized"],
    );
    assert(texts(r@) =~= seq![
        "-instance"@,
        EVERYTHING_INSTANCE_NAME@,
        "-config"@,
        ini_path@,
        "-startup"@,
        "-minimized"@,
    ]);
    r
}

/// A path resolved on disk: its text when it is valid UTF-8, and how it displays.
#[derive(Clone, Debug, PartialEq, Eq)]
pub struct ResolvedPath {
    pub text: Option<String>,
    pub display: String,
}

/// `Path::canonicalize`: the canonical, absolute path `path` resolves to,
/// or the text of the error. Which path that is comes from the file system
/// and is not stated; an absolute path is never empty, so its text, when
/// it is valid UTF-8, and its display are not empty.
#[verifier::external_body]
fn path_canonicalize(path: &str) -> (r: Result<ResolvedPath, String>)
    ensures
        r matches Ok(p) ==> canonical_form(p),
{
    match std::path::Path::new(path).canonicalize() {
        Ok(p) => Ok(
            ResolvedPath {
                text: match p.to_str() {
                    Some(s) => Some(s.to_string()),
                    None => None,
                },
                display: p.display().to_string(),
            },
        ),
        Err(e) => Err(e.to_string()),
    }
}

/// What holds of every path `Path::canonicalize` gives: it is not empty.
pub open spec fn canonical_form(p: ResolvedPath) -> bool {
    &&& p.display@.len() > 0
    &&& p.text matches Some(t) ==> t@.len() > 0
}

/// `r` is what resolving `path` gives when the disk says whether something
/// is there (`found`) and, if so, what `Path::canonicalize` returned
/// (`resolved`): that path, else `path not found: <path>` or
/// `failed to resolve path <path>: <reason>`.
pub open spec fn resolve_outcome(
    path: Seq<char>,
    found: bool,
    resolved: Result<ResolvedPath, String>,
    r: Result<ResolvedPath, String>,
) -> bool {
    if !found {
        r matches Err(e) && e@ == "path not found: "@ + path
    } else {
        match resolved {
            Ok(p) => r == Ok::<ResolvedPath, String>(p),
            Err(reason) => r matches Err(e) && e@ == "failed to resolve path "@ + path + ": "@
                + reason@,
        }
    }
}

/// The result of resolving `path`, given whether something is there on disk
/// and what `Path::canonicalize` returned for it (see `resolve_outcome`).
pub fn existing_path_result(path: &str, found: bool, resolved: Result<ResolvedPath, String>) -> (r: Result<ResolvedPath, String>)
    ensures
        resolve_outcome(path@, found, resolved, r),
{
    if !found {
        let mut e = String::from_str("path not found: ");
        e.append(path);
        return Err(e);
    }
    match resolved {
        Ok(p) => Ok(p),
        Err(reason) => {
            let mut e = String::from_str("failed to resolve path ");
            e.append(path);
            e.append(": ");
            e.append(reason.as_str());
            Err(e)
        },
    }
}

/// Resolves `path` to the canonical, absolute path of an existing item, as
/// `Path::canonicalize` gives it; fails with `path not found: <path>` when
/// nothing is there, or with `failed to resolve path <path>: <reason>`.
pub fn canonical_existing_path(path: &str) -> (r: Result<ResolvedPath, String>)
    ensures
        exists|found: bool, resolved: Result<ResolvedPath, String>|
            {
                &&& #[trigger] resolve_outcome(path@, found, resolved, r)
                &&& resolved matches Ok(p) ==> canonical_form(p)
            },
        // nothing exists at the empty path
        path@.len() == 0 ==> (r matches Err(e) && e@ == "path not found: "@ + path@),
{
    let found = path.unicode_len() > 0 && path_exists(path);
    let resolved = if found {
        path_canonicalize(path)
    } else {
        Err(String::new())
    };
    let ghost g = resolved;
    let r = existing_path_result(path, found, resolved);
    assert(resolve_outcome(path@, found, g, r));
    r
}

/// The text of a resolved path, which must be valid UTF-8.
pub fn utf8_path(p: &ResolvedPath) -> (r: Result<String, String>)
    ensures
        match p.text {
            Some(t) => r matches Ok(x) && x@ == t@,
            None => r matches Err(e) && e@ == "path is not valid UTF-8: "@ + p.display@,
        },
{
    match &p.text {
        Some(t) => Ok(t.clone()),
        None => {
            let mut e = String::from_str("path is not valid UTF-8: ");
            e.append(p.display.as_str());
            Err(e)
        },
    }
}

} // verus!
