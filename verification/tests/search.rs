use filefloat::json::JsonValue;
use filefloat::search::{
    everything_results, extension, file_kind, finish_record, kind_for_extension, kind_for_item,
    normalize_kind, normalize_search_result, normalize_search_results, parse_everything_http_results,
    read_record, records_of,
    search_result_from_record, RecordFields, SearchResult,
};

fn result(name: &str, path: &str, kind: &str) -> SearchResult {
    SearchResult { name: name.to_string(), path: path.to_string(), kind: kind.to_string() }
}

fn s(t: &str) -> JsonValue {
    JsonValue::String(t.to_string())
}

fn obj(members: Vec<(&str, JsonValue)>) -> JsonValue {
    JsonValue::Object(members.into_iter().map(|(k, v)| (k.to_string(), v)).collect())
}

#[test]
fn normalize_kind_settles_folder_or_file() {
    assert_eq!(normalize_kind(result("a", "C:\\a", " File Folder "), false).kind, "folder");
    assert_eq!(normalize_kind(result("a", "C:\\a", "DIRECTORY"), false).kind, "folder");
    assert_eq!(normalize_kind(result("a", "C:\\a\\", "text"), false).kind, "folder");
    assert_eq!(normalize_kind(result("a", "/a/", ""), false).kind, "folder");
    assert_eq!(normalize_kind(result("a", "C:\\a.txt", "Text Document"), false).kind, "file");
    assert_eq!(normalize_kind(result("a", "C:\\a.txt", "Text Document"), true).kind, "folder");
    // the separator test reads the untrimmed path
    assert_eq!(normalize_kind(result("a", "C:\\a\\ ", "x"), false).kind, "file");
    let r = normalize_kind(result("n", "p", "k"), false);
    assert_eq!((r.name.as_str(), r.path.as_str()), ("n", "p"));
}

#[test]
fn settling_a_kind_twice_changes_nothing() {
    for (kind, path) in [(" File Folder ", "C:\\a"), ("text", "C:\\a\\"), ("Text Document", "C:\\a.txt"), ("", "/a")] {
        for is_dir in [false, true] {
            let once = normalize_kind(result("a", path, kind), is_dir);
            let twice = normalize_kind(once.clone(), is_dir);
            assert_eq!(twice, once);
        }
    }
}

#[test]
fn normalize_asks_the_file_system() {
    assert_eq!(normalize_search_result(result("usr", " /usr ", "file")).kind, "folder");
    assert_eq!(normalize_search_result(result("x", "/no/such/file.txt", "file")).kind, "file");
    let all = normalize_search_results(vec![result("a", "/no/such/a", "folder"), result("b", "/no/such/b", "")]);
    assert_eq!(all, vec![result("a", "/no/such/a", "folder"), result("b", "/no/such/b", "file")]);
}

#[test]
fn records_come_from_array_results_or_items() {
    let arr = JsonValue::Array(vec![obj(vec![("name", s("a"))])]);
    assert_eq!(records_of(&arr).unwrap().len(), 1);
    let res = obj(vec![("results", JsonValue::Array(vec![JsonValue::Null, JsonValue::Null]))]);
    assert_eq!(records_of(&res).unwrap().len(), 2);
    let items = obj(vec![("results", s("not an array")), ("items", JsonValue::Array(vec![JsonValue::Null]))]);
    assert_eq!(records_of(&items).unwrap().len(), 1);
    assert!(records_of(&obj(vec![("other", JsonValue::Array(vec![]))])).is_none());
    assert!(records_of(&JsonValue::Number("3".to_string())).is_none());
}

#[test]
fn read_record_takes_the_first_present_member() {
    let f = read_record(&obj(vec![
        ("fullname", s("  C:\\x\\y.txt ")),
        ("folder", s("C:\\x")),
        ("filename", s(" y.txt ")),
        ("title", s("ignored")),
        ("kind", s("File")),
    ]))
    .unwrap();
    assert_eq!(
        f,
        RecordFields {
            full_path: "C:\\x\\y.txt".to_string(),
            container: "C:\\x".to_string(),
            name: Some("y.txt".to_string()),
            kind: Some("File".to_string()),
        }
    );
    // a present member that is not text is not replaced by the next one
    let g = read_record(&obj(vec![("full_path", JsonValue::Number("5".to_string())), ("fullname", s("C:\\a.txt"))])).unwrap();
    assert_eq!(g.full_path, "");
    assert_eq!(g.name, None);
    assert!(read_record(&s("text")).is_none());
}

#[test]
fn finish_record_builds_the_result() {
    let f = RecordFields { full_path: String::new(), container: "C:\\dir".to_string(), name: Some("a.txt".to_string()), kind: None };
    assert_eq!(finish_record(&f, "", "C:\\dir\\a.txt"), Some(result("a.txt", "C:\\dir\\a.txt", "file")));
    let f = RecordFields { full_path: "C:\\dir\\".to_string(), container: String::new(), name: None, kind: None };
    assert_eq!(finish_record(&f, "dir", ""), Some(result("dir", "C:\\dir\\", "folder")));
    let f = RecordFields { full_path: "C:\\d".to_string(), container: String::new(), name: Some("d".to_string()), kind: Some("Folder".to_string()) };
    assert_eq!(finish_record(&f, "", ""), Some(result("d", "C:\\d", "folder")));
    let f = RecordFields { full_path: String::new(), container: String::new(), name: None, kind: None };
    assert_eq!(finish_record(&f, "", ""), None);
    let f = RecordFields { full_path: String::new(), container: "C:\\only".to_string(), name: None, kind: None };
    assert_eq!(finish_record(&f, "", "unused"), Some(result("", "C:\\only", "file")));
}

#[test]
fn record_name_falls_back_to_the_file_name() {
    let f = RecordFields { full_path: "/srv/data/report.pdf".to_string(), container: String::new(), name: None, kind: None };
    assert_eq!(search_result_from_record(&f), Some(result("report.pdf", "/srv/data/report.pdf", "file")));
    let f = RecordFields { full_path: String::new(), container: "/srv/data".to_string(), name: Some("a.txt".to_string()), kind: Some("file".to_string()) };
    let r = search_result_from_record(&f).unwrap();
    assert!(r.path.starts_with("/srv/data") && r.path.ends_with("a.txt") && r.path.len() > "/srv/dataa.txt".len() - 1);
    assert_eq!(r.name, "a.txt");
}

#[test]
fn everything_answer_becomes_results() {
    let answer = obj(vec![(
        "results",
        JsonValue::Array(vec![
            obj(vec![("name", s("a.txt")), ("path", s("/no/such/dir")), ("type", s("file"))]),
            obj(vec![("full_path", s(" /usr/ "))]),
            JsonValue::Number("3".to_string()),
            obj(vec![]),
            obj(vec![("full_path", JsonValue::Number("5".to_string())), ("fullname", s("C:\\a.txt"))]),
        ]),
    )]);
    let found = everything_results(&answer);
    assert_eq!(found.len(), 2);
    assert_eq!(found[0].name, "a.txt");
    assert!(found[0].path.ends_with("a.txt"));
    assert_eq!(found[0].kind, "file");
    assert_eq!(found[1], result("usr", "/usr/", "folder"));
    assert!(everything_results(&JsonValue::Null).is_empty());
}

#[test]
fn everything_http_text_is_parsed() {
    let found = parse_everything_http_results(
        r#"{"totalResults":2,"results":[{"type":"folder","name":" docs ","path":"/no/such"},{"full_path":"/no/such/b.txt"}]}"#,
    )
    .unwrap();
    assert_eq!(found.len(), 2);
    assert_eq!(found[0].name, "docs");
    assert!(found[0].path.starts_with("/no/such") && found[0].path.ends_with("docs"));
    assert_eq!(found[0].kind, "folder");
    assert_eq!(found[1], result("b.txt", "/no/such/b.txt", "file"));
    let bare = parse_everything_http_results(r#"[{"filename":"x","folder":""}]"#).unwrap();
    assert_eq!(bare, vec![result("x", "", "file")]);
    assert!(parse_everything_http_results("[]").unwrap().is_empty());
    assert!(parse_everything_http_results("{\"items\": 3}").unwrap().is_empty());
}

#[test]
fn everything_http_text_that_is_not_json_is_refused() {
    let e = parse_everything_http_results("not json").unwrap_err();
    assert!(e.starts_with("invalid Everything HTTP JSON: "));
    assert!(e.len() > "invalid Everything HTTP JSON: ".len());
    assert!(parse_everything_http_results("").is_err());
}

#[test]
fn extensions_follow_path_rules() {
    assert_eq!(extension("a.b.c"), Some("c".to_string()));
    assert_eq!(extension("a.."), Some("".to_string()));
    assert_eq!(extension(".bashrc"), None);
    assert_eq!(extension(".."), None);
    assert_eq!(extension("README"), None);
    assert_eq!(extension("photo.PNG"), Some("PNG".to_string()));
}

#[test]
fn kinds_by_extension() {
    assert_eq!(kind_for_extension(Some("PNG")), "image");
    assert_eq!(kind_for_extension(Some("webp")), "image");
    assert_eq!(kind_for_extension(Some("Mkv")), "video");
    assert_eq!(kind_for_extension(Some("m4a")), "audio");
    assert_eq!(kind_for_extension(Some("BAT")), "application");
    assert_eq!(kind_for_extension(Some("gz")), "document");
    assert_eq!(kind_for_extension(Some("")), "document");
    assert_eq!(kind_for_extension(None), "document");
    assert_eq!(kind_for_item(true, Some("x.png")), "folder");
    assert_eq!(kind_for_item(false, Some("x.tar.mp4")), "video");
    assert_eq!(kind_for_item(false, None), "document");
}

#[test]
fn file_kind_reads_disk_and_extension() {
    assert_eq!(file_kind("/usr"), "folder");
    assert_eq!(file_kind("/no/such/photo.JPEG"), "image");
    assert_eq!(file_kind("/no/such/archive.tar.gz"), "document");
    assert_eq!(file_kind("/no/such/.hidden"), "document");
    assert_eq!(file_kind("/no/such/setup.exe"), "application");
}

#[test]
fn everything_records_join_container_and_name() {
    let r = parse_everything_http_results(r#"{"totalResults":1,"results":[{"type":"folder","name":"docs","path":"C:/x/"}]}"#);
    assert_eq!(r, Ok(vec![result("docs", "C:/x/docs", "folder")]));
    let r = parse_everything_http_results(r#"[{"full_path":"  C:/a/dir/ ","type":"Folder"}]"#);
    assert_eq!(r, Ok(vec![result("dir", "C:/a/dir/", "folder")]));
    let r = parse_everything_http_results(
        r#"{"results":[{"name":"a","path":"C:/r/","type":"folder"}],"items":[{"name":"b","path":"C:/i/","type":"folder"}]}"#,
    );
    assert_eq!(r, Ok(vec![result("a", "C:/r/a", "folder")]));
    let r = parse_everything_http_results(
        r#"[1,"s",{"name":"  ","path":""},{"title":" t ","folder":"C:/f/","kind":"Directory"}]"#,
    );
    assert_eq!(r, Ok(vec![result("t", "C:/f/t", "folder")]));
}

#[test]
fn the_empty_path_is_a_file() {
    assert_eq!(normalize_search_result(result("x", "", "image")), result("x", "", "file"));
    assert_eq!(normalize_search_result(result("x", "   ", "image")), result("x", "   ", "file"));
    assert_eq!(file_kind(""), "document");
}
