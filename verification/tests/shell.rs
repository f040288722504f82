use filefloat::shell::{
    autostart_disable_command, autostart_disable_outcome, autostart_enable_command,
    autostart_enable_outcome, autostart_query_command, canonical_existing_path, existing_path_result,
    copy_file_paths_to_clipboard, copy_text_to_clipboard, delete_path_to_recycle_bin,
    everything_ini, everything_launch_args, everything_runtime_paths, failure_message,
    join_strings, open_with_default_app, powershell_command_args, powershell_file_args,
    powershell_output, powershell_script_file_name, reveal_path, run_hidden_powershell_script_ok,
    utf8_path, ResolvedPath, AUTOSTART_REG_PATH, CLIPBOARD_FILES_SCRIPT, CLIPBOARD_TEXT_SCRIPT,
    RECYCLE_SCRIPT,
};

fn pair(a: &str, b: &str) -> (String, String) {
    (a.to_string(), b.to_string())
}

#[test]
fn clipboard_and_recycle_scripts_carry_their_input() {
    let t = copy_text_to_clipboard("hello");
    assert_eq!(t.script, CLIPBOARD_TEXT_SCRIPT);
    assert_eq!(t.env, vec![pair("FILEFLOAT_TEXT", "hello")]);
    assert!(CLIPBOARD_TEXT_SCRIPT.contains("[System.Windows.Forms.Clipboard]::SetText($text)"));
    let f = copy_file_paths_to_clipboard(&vec!["C:\\a.txt".to_string(), "C:\\b".to_string()], true);
    assert_eq!(f.script, CLIPBOARD_FILES_SCRIPT);
    assert_eq!(f.env, vec![pair("FILEFLOAT_PATHS", "C:\\a.txt\nC:\\b"), pair("FILEFLOAT_CUT", "1")]);
    let g = copy_file_paths_to_clipboard(&vec!["C:\\a.txt".to_string()], false);
    assert_eq!(g.env, vec![pair("FILEFLOAT_PATHS", "C:\\a.txt"), pair("FILEFLOAT_CUT", "0")]);
    let d = delete_path_to_recycle_bin("C:\\old");
    assert_eq!(d.script, RECYCLE_SCRIPT);
    assert_eq!(d.env, vec![pair("FILEFLOAT_TARGET", "C:\\old")]);
    assert!(RECYCLE_SCRIPT.contains("'SendToRecycleBin'"));
}

#[test]
fn join_strings_puts_the_separator_between() {
    assert_eq!(join_strings(&vec![], "\n"), "");
    assert_eq!(join_strings(&vec!["a".to_string()], ", "), "a");
    assert_eq!(join_strings(&vec!["a".to_string(), "b".to_string(), "c".to_string()], ", "), "a, b, c");
}

#[test]
fn failures_report_the_error_output() {
    assert_eq!(run_hidden_powershell_script_ok(true, "ignored"), Ok(()));
    assert_eq!(run_hidden_powershell_script_ok(false, "  boom \n"), Err("boom".to_string()));
    assert_eq!(run_hidden_powershell_script_ok(false, " \r\n"), Err("PowerShell command failed".to_string()));
    assert_eq!(powershell_output(true, "out".to_string(), "err"), Ok("out".to_string()));
    assert_eq!(powershell_output(false, "out".to_string(), " err "), Err("err".to_string()));
    assert_eq!(powershell_output(false, "out".to_string(), ""), Err("".to_string()));
    assert_eq!(failure_message("", "fallback"), "fallback");
}

#[test]
fn powershell_invocations() {
    assert_eq!(
        powershell_command_args("Get-Date"),
        vec!["-NoLogo", "-NoProfile", "-NonInteractive", "-ExecutionPolicy", "Bypass", "-WindowStyle", "Hidden", "-Command", "Get-Date"]
    );
    assert_eq!(
        powershell_file_args("C:\\t\\s.ps1"),
        vec!["-NoProfile", "-NonInteractive", "-ExecutionPolicy", "Bypass", "-STA", "-WindowStyle", "Hidden", "-File", "C:\\t\\s.ps1"]
    );
    assert_eq!(powershell_script_file_name(1700000000123456789, 4242), "filefloat-1700000000123456789-4242.ps1");
}

#[test]
fn explorer_and_start_commands() {
    let o = open_with_default_app("C:\\a b.txt");
    assert_eq!(o.program, "cmd");
    assert_eq!(o.args, vec!["/C", "start", "", "C:\\a b.txt"]);
    let r = reveal_path("C:\\x");
    assert_eq!(r.program, "explorer");
    assert_eq!(r.args, vec!["/select,", "C:\\x"]);
}

#[test]
fn autostart_registry_commands() {
    let q = autostart_query_command();
    assert_eq!(q.program, "reg.exe");
    assert_eq!(q.args, vec!["query", AUTOSTART_REG_PATH, "/v", "FileFloat"]);
    assert_eq!(AUTOSTART_REG_PATH, "HKCU\\Software\\Microsoft\\Windows\\CurrentVersion\\Run");
    let e = autostart_enable_command("C:\\Apps\\FileFloat.exe");
    assert_eq!(
        e.args,
        vec!["add", AUTOSTART_REG_PATH, "/v", "FileFloat", "/t", "REG_SZ", "/d", "\"C:\\Apps\\FileFloat.exe\"", "/f"]
    );
    let d = autostart_disable_command();
    assert_eq!(d.args, vec!["delete", AUTOSTART_REG_PATH, "/v", "FileFloat", "/f"]);
}

#[test]
fn autostart_outcomes() {
    assert_eq!(autostart_enable_outcome(true, "x"), Ok(()));
    assert_eq!(autostart_enable_outcome(false, ""), Err("failed to enable auto start".to_string()));
    assert_eq!(autostart_enable_outcome(false, " denied\r\n"), Err("denied".to_string()));
    assert_eq!(autostart_disable_outcome(true, true, "x"), Ok(()));
    assert_eq!(autostart_disable_outcome(false, false, "x"), Ok(()));
    assert_eq!(autostart_disable_outcome(false, true, ""), Err("failed to disable auto start".to_string()));
    assert_eq!(autostart_disable_outcome(false, true, "nope "), Err("nope".to_string()));
}

#[test]
fn everything_runtime_layout() {
    let p = everything_runtime_paths("/data");
    assert!(p.root.starts_with("/data") && p.root.ends_with("FileFloat-Everything"));
    assert!(p.root.contains("FileFloat"));
    assert!(p.everything_exe.starts_with(p.root.as_str()) && p.everything_exe.ends_with("everything.exe"));
    assert!(p.lang.ends_with("Everything.lng"));
    assert!(p.ini.ends_with("Everything-FILEFLOAT.ini"));
    let q = everything_runtime_paths("/data/");
    assert_eq!(q.root, "/data/FileFloat/FileFloat-Everything");
    assert_eq!(q.everything_exe, "/data/FileFloat/FileFloat-Everything/everything.exe");
    assert_eq!(q.lang, "/data/FileFloat/FileFloat-Everything/Everything.lng");
    assert_eq!(q.ini, "/data/FileFloat/FileFloat-Everything/Everything-FILEFLOAT.ini");
    let ini = everything_ini();
    assert!(ini.starts_with("[Everything]\r\napp_data=0\r\ninstance_name=FileFloat\r\n"));
    assert!(ini.contains("\r\nhttp_server_port=18999\r\nhttp_server_bindings=127.0.0.1\r\n"));
    assert!(ini.ends_with("127.0.0.1\r\n"));
    assert_eq!(
        everything_launch_args("C:\\rt\\Everything-FILEFLOAT.ini"),
        vec!["-instance", "FileFloat", "-config", "C:\\rt\\Everything-FILEFLOAT.ini", "-startup", "-minimized"]
    );
}

#[test]
fn canonical_paths() {
    assert_eq!(canonical_existing_path("/definitely/not/here"), Err("path not found: /definitely/not/here".to_string()));
    assert_eq!(canonical_existing_path(""), Err("path not found: ".to_string()));
    let root = canonical_existing_path("/").unwrap();
    assert_eq!(root.text, Some("/".to_string()));
    assert_eq!(utf8_path(&root), Ok("/".to_string()));
    let usr = canonical_existing_path("/usr/../usr/./").unwrap();
    assert_eq!(usr.text, Some("/usr".to_string()));
    assert_eq!(usr.display, "/usr");
    let found = ResolvedPath { text: Some("/srv/a".to_string()), display: "/srv/a".to_string() };
    assert_eq!(existing_path_result("a", true, Ok(found.clone())), Ok(found.clone()));
    assert_eq!(existing_path_result("a", false, Ok(found)), Err("path not found: a".to_string()));
    assert_eq!(
        existing_path_result("a", true, Err("denied".to_string())),
        Err("failed to resolve path a: denied".to_string())
    );
    let bad = ResolvedPath { text: None, display: "C:\\�".to_string() };
    assert_eq!(utf8_path(&bad), Err("path is not valid UTF-8: C:\\�".to_string()));
}
