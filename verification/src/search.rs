//! Search results: the record each search engine hands back, how its kind
//! is settled, and how the Everything engine's JSON answer is read.

use vstd::prelude::*;
use crate::json::{self, as_str, get, JsonValue};
use crate::text::{self, chars_of, contains_chars, ends_with_char_exec, lower_chars, trim_str};

verus! {

/// One search hit: the item's name, its full path, and its kind
/// (`"folder"` or `"file"` once normalized).
#[derive(Clone, Debug, PartialEq, Eq)]
pub struct SearchResult {
    pub name: String,
    pub path: String,
    pub kind: String,
}

pub struct SearchResultView {
    pub name: Seq<char>,
    pub path: Seq<char>,
    pub kind: Seq<char>,
}

impl View for SearchResult {
    type V = SearchResultView;

    open spec fn view(&self) -> SearchResultView {
        SearchResultView { name: self.name@, path: self.path@, kind: self.kind@ }
    }
}

impl SearchResult {
    /// A copy of this result.
    pub fn duplicate(&self) -> (r: SearchResult)
        ensures
            r@ == self@,
    {
        SearchResult { name: self.name.clone(), path: self.path.clone(), kind: self.kind.clone() }
    }
}

/// A kind text that names a folder: it holds `folder` or `directory`,
/// ignoring ASCII case.
pub open spec fn kind_says_folder(kind: Seq<char>) -> bool {
    text::contains(text::lower(kind), "folder"@) || text::contains(text::lower(kind), "directory"@)
}

/// A path written with a trailing separator.
pub open spec fn ends_in_separator(path: Seq<char>) -> bool {
    text::ends_with_char(path, '\\') || text::ends_with_char(path, '/')
}

/// Without asking the file system, the result is known to be a folder.
pub open spec fn folder_hint(r: SearchResultView) -> bool {
    kind_says_folder(text::trim(r.kind)) || ends_in_separator(r.path)
}

/// The normalized kind of `r`, given whether its trimmed path is a directory on disk.
pub open spec fn normalized_kind(r: SearchResultView, is_dir: bool) -> Seq<char> {
    if is_dir || folder_hint(r) {
        "folder"@
    } else {
        "file"@
    }
}

/// Settling a kind again changes nothing: a result whose kind was settled
/// keeps that kind when it is settled a second time with the same answer
/// from the disk.
pub proof fn lemma_normalized_kind_settled(r: SearchResultView, is_dir: bool)
    ensures
        ({
            let once = SearchResultView { name: r.name, path: r.path, kind: normalized_kind(r, is_dir) };
            normalized_kind(once, is_dir) == once.kind
        }),
{
    reveal_strlit("folder");
    reveal_strlit("file");
    reveal_strlit("directory");
    let folder = "folder"@;
    let file = "file"@;
    assert(text::trim_start(folder) == folder);
    assert(text::trim_end(folder) == folder);
    assert(text::lower(folder) =~= folder);
    assert(folder.subrange(0, 6) =~= folder);
    assert(text::occurs_at(text::lower(folder), folder, 0));
    assert(text::trim_start(file) == file);
    assert(text::trim_end(file) == file);
    assert(text::lower(file).len() == 4);
}

fn kind_says_folder_exec(kind: &str) -> (r: bool)
    ensures
        r == kind_says_folder(kind@),
{
    let k = lower_chars(&chars_of(kind));
    contains_chars(&k, &chars_of("folder")) || contains_chars(&k, &chars_of("directory"))
}

fn ends_in_separator_exec(path: &str) -> (r: bool)
    ensures
        r == ends_in_separator(path@),
{
    ends_with_char_exec(path, '\\') || ends_with_char_exec(path, '/')
}

/// `Path::is_dir`: whether a directory exists at `path`. The answer comes
/// from the file system at the time of the call; nothing is promised of it.
#[verifier::external_body]
pub(crate) fn path_is_dir(path: &str) -> bool {
    std::path::Path::new(path).is_dir()
}

/// `Path::exists`: whether something exists at `path`. The answer comes
/// from the file system at the time of the call; nothing is promised of it.
#[verifier::external_body]
pub(crate) fn path_exists(path: &str) -> bool {
    std::path::Path::new(path).exists()
}

/// `Path == Path`: whether two paths have the same components under the
/// platform's path rules. The rules are not stated; equal texts are the same path.
#[verifier::external_body]
pub(crate) fn same_path(a: &str, b: &str) -> (r: bool)
    ensures
        a@ == b@ ==> r,
{
    std::path::Path::new(a) == std::path::Path::new(b)
}

/// Settles the kind of `result` to `"folder"` or `"file"`, given whether
/// its trimmed path is a directory on disk.
pub fn normalize_kind(result: SearchResult, is_dir: bool) -> (r: SearchResult)
    ensures
        r@.name == result@.name,
        r@.path == result@.path,
        r@.kind == normalized_kind(result@, is_dir),
{
    let kind = trim_str(result.kind.as_str());
    let folder = is_dir || kind_says_folder_exec(kind.as_str()) || ends_in_separator_exec(
        result.path.as_str(),
    );
    let kind = if folder {
        String::from_str("folder")
    } else {
        String::from_str("file")
    };
    SearchResult { name: result.name, path: result.path, kind }
}

/// Settles the kind of `result` to `"folder"` or `"file"`: a folder when its
/// trimmed path is a directory on disk, its kind names a folder or its path
/// ends with a separator.
pub fn normalize_search_result(result: SearchResult) -> (r: SearchResult)
    ensures
        r@.name == result@.name,
        r@.path == result@.path,
        exists|is_dir: bool| r@.kind == #[trigger] normalized_kind(result@, is_dir),
        folder_hint(result@) ==> r@.kind == "folder"@,
        // the empty path is never a directory
        text::trim(result@.path).len() == 0 ==> r@.kind == normalized_kind(result@, false),
{
    let trimmed = trim_str(result.path.as_str());
    let is_dir = trimmed.unicode_len() > 0 && path_is_dir(trimmed.as_str());
    let r = normalize_kind(result, is_dir);
    assert(r@.kind == normalized_kind(result@, is_dir));
    r
}

/// `normalize_search_result` applied to each result, in order.
pub fn normalize_search_results(results: Vec<SearchResult>) -> (r: Vec<SearchResult>)
    ensures
        r.len() == results.len(),
        forall|i: int|
            0 <= i < r.len() ==> {
                &&& (#[trigger] r@[i])@.name == results@[i]@.name
                &&& r@[i]@.path == results@[i]@.path
                &&& exists|d: bool| r@[i]@.kind == #[trigger] normalized_kind(results@[i]@, d)
                &&& folder_hint(results@[i]@) ==> r@[i]@.kind == "folder"@
                &&& text::trim(results@[i]@.path).len() == 0 ==> r@[i]@.kind == normalized_kind(
                    results@[i]@,
                    false,
                )
            },
{
    let mut out: Vec<SearchResult> = Vec::new();
    let mut i: usize = 0;
    while i < results.len()
        invariant
            i <= results.len(),
            out.len() == i,
            forall|j: int|
                0 <= j < i ==> {
                    &&& (#[trigger] out@[j])@.name == results@[j]@.name
                    &&& out@[j]@.path == results@[j]@.path
                    &&& exists|d: bool| out@[j]@.kind == #[trigger] normalized_kind(results@[j]@, d)
                    &&& folder_hint(results@[j]@) ==> out@[j]@.kind == "folder"@
                    &&& text::trim(results@[j]@.path).len() == 0 ==> out@[j]@.kind
                        == normalized_kind(results@[j]@, false)
                },
        decreases results.len() - i,
    {
        let item = normalize_search_result(results[i].duplicate());
        out.push(item);
        i = i + 1;
    }
    out
}


/// The records of an answer from the Everything engine: the answer itself
/// when it is an array, else the array under `results`, else the array
/// under `items`; no records otherwise.
pub open spec fn everything_records(v: JsonValue) -> Seq<JsonValue> {
    match v {
        JsonValue::Array(items) => items@,
        JsonValue::Object(m) => match json::member(m@, "results"@) {
            Some(JsonValue::Array(items)) => items@,
            _ => match json::member(m@, "items"@) {
                Some(JsonValue::Array(items)) => items@,
                _ => Seq::empty(),
            },
        },
        _ => Seq::empty(),
    }
}

/// The records of an answer from the Everything engine (`None` when it has none).
pub fn records_of(v: &JsonValue) -> (r: Option<&Vec<JsonValue>>)
    ensures
        match r {
            Some(items) => items@ == everything_records(*v),
            None => everything_records(*v) == Seq::<JsonValue>::empty(),
        },
{
    match v {
        JsonValue::Array(items) => Some(items),
        JsonValue::Object(m) => {
            match get(m, "results") {
                Some(JsonValue::Array(items)) => Some(items),
                _ => match get(m, "items") {
                    Some(JsonValue::Array(items)) => Some(items),
                    _ => None,
                },
            }
        },
        _ => None,
    }
}

/// The value of the first of the members `a`, `b` present in `m`.
pub open spec fn first_member(m: Seq<(String, JsonValue)>, a: Seq<char>, b: Seq<char>) -> Option<JsonValue> {
    match json::member(m, a) {
        Some(v) => Some(v),
        None => json::member(m, b),
    }
}

pub open spec fn or_empty(t: Option<Seq<char>>) -> Seq<char> {
    match t {
        Some(s) => s,
        None => Seq::empty(),
    }
}

/// What a record of the Everything engine says of an item.
#[derive(Clone, Debug, PartialEq, Eq)]
pub struct RecordFields {
    /// `full_path` (else `fullname`), trimmed; empty when missing or not text.
    pub full_path: String,
    /// `path` (else `folder`), trimmed; empty when missing or not text.
    pub container: String,
    /// `name` (else `filename`, else `title`), trimmed, when it is text.
    pub name: Option<String>,
    /// `type` (else `kind`), when it is text.
    pub kind: Option<String>,
}

pub struct RecordFieldsView {
    pub full_path: Seq<char>,
    pub container: Seq<char>,
    pub name: Option<Seq<char>>,
    pub kind: Option<Seq<char>>,
}

pub open spec fn opt_view(o: Option<String>) -> Option<Seq<char>> {
    match o {
        Some(s) => Some(s@),
        None => None,
    }
}

impl View for RecordFields {
    type V = RecordFieldsView;

    open spec fn view(&self) -> RecordFieldsView {
        RecordFieldsView {
            full_path: self.full_path@,
            container: self.container@,
            name: opt_view(self.name),
            kind: opt_view(self.kind),
        }
    }
}

/// The name member of a record: `name`, else `filename`, else `title`.
pub open spec fn name_member(m: Seq<(String, JsonValue)>) -> Option<JsonValue> {
    match json::member(m, "name"@) {
        Some(v) => Some(v),
        None => first_member(m, "filename"@, "title"@),
    }
}

/// What record `rec` says, when it is an object.
pub open spec fn record_fields(rec: JsonValue) -> Option<RecordFieldsView> {
    match rec {
        JsonValue::Object(m) => Some(
            RecordFieldsView {
                full_path: text::trim(
                    or_empty(json::text_of(first_member(m@, "full_path"@, "fullname"@))),
                ),
                container: text::trim(or_empty(json::text_of(first_member(m@, "path"@, "folder"@)))),
                name: match json::text_of(name_member(m@)) {
                    Some(t) => Some(text::trim(t)),
                    None => None,
                },
                kind: json::text_of(first_member(m@, "type"@, "kind"@)),
            },
        ),
        _ => None,
    }
}

fn first_of<'a>(m: &'a Vec<(String, JsonValue)>, a: &str, b: &str) -> (r: Option<&'a JsonValue>)
    ensures
        json::deref_opt(r) == first_member(m@, a@, b@),
{
    match get(m, a) {
        Some(v) => Some(v),
        None => get(m, b),
    }
}

fn trimmed_or_empty(t: Option<&str>) -> (r: String)
    ensures
        r@ == text::trim(or_empty(match t {
            Some(s) => Some(s@),
            None => None,
        })),
{
    match t {
        Some(s) => trim_str(s),
        None => {
            let e = String::new();
            proof {
                assert(text::trim_start(Seq::<char>::empty()) == Seq::<char>::empty());
                assert(text::trim_end(Seq::<char>::empty()) == Seq::<char>::empty());
            }
            e
        },
    }
}

/// Reads what record `rec` says of an item (`None` when it is not an object).
pub fn read_record(rec: &JsonValue) -> (r: Option<RecordFields>)
    ensures
        match r {
            Some(f) => record_fields(*rec) == Some(f@),
            None => record_fields(*rec) is None,
        },
{
    match rec {
        JsonValue::Object(m) => {
            let full_path = trimmed_or_empty(as_str(first_of(m, "full_path", "fullname")));
            let container = trimmed_or_empty(as_str(first_of(m, "path", "folder")));
            let name_value = match get(m, "name") {
                Some(v) => Some(v),
                None => first_of(m, "filename", "title"),
            };
            let name = match as_str(name_value) {
                Some(t) => Some(trim_str(t)),
                None => None,
            };
            let kind = match as_str(first_of(m, "type", "kind")) {
                Some(t) => Some(String::from_str(t)),
                None => None,
            };
            let f = RecordFields { full_path, container, name, kind };
            assert(record_fields(*rec) == Some(f@));
            Some(f)
        },
        _ => None,
    }
}

/// The search result a record gives, when the file name of the fallback
/// path is `fallback_name` and the container path joined with the name is
/// `joined`; none when the record has neither a path nor a name.
pub open spec fn record_result(f: RecordFieldsView, fallback_name: Seq<char>, joined: Seq<char>) -> Option<SearchResultView> {
    let name = match f.name {
        Some(n) => n,
        None => fallback_name,
    };
    let path = if f.full_path.len() > 0 {
        f.full_path
    } else if f.container.len() > 0 && name.len() > 0 {
        joined
    } else {
        f.container
    };
    if path.len() == 0 && name.len() == 0 {
        None
    } else {
        let kind = match f.kind {
            Some(k) => if kind_says_folder(k) {
                "folder"@
            } else {
                "file"@
            },
            None => if ends_in_separator(path) {
                "folder"@
            } else {
                "file"@
            },
        };
        Some(SearchResultView { name, path, kind })
    }
}

pub open spec fn result_view(r: Option<SearchResult>) -> Option<SearchResultView> {
    match r {
        Some(x) => Some(x@),
        None => None,
    }
}

/// The search result a record gives (see `record_result`).
pub fn finish_record(f: &RecordFields, fallback_name: &str, joined: &str) -> (r: Option<SearchResult>)
    ensures
        result_view(r) == record_result(f@, fallback_name@, joined@),
{
    let name = match &f.name {
        Some(n) => n.clone(),
        None => String::from_str(fallback_name),
    };
    let full_len = f.full_path.unicode_len();
    let container_len = f.container.unicode_len();
    let name_len = name.unicode_len();
    let path = if full_len > 0 {
        f.full_path.clone()
    } else if container_len > 0 && name_len > 0 {
        String::from_str(joined)
    } else {
        f.container.clone()
    };
    if path.unicode_len() == 0 && name_len == 0 {
        return None;
    }
    let folder = match &f.kind {
        Some(k) => kind_says_folder_exec(k.as_str()),
        None => ends_in_separator_exec(path.as_str()),
    };
    let kind = if folder {
        String::from_str("folder")
    } else {
        String::from_str("file")
    };
    Some(SearchResult { name, path, kind })
}

/// `s` without the `/` characters at its end.
pub open spec fn without_trailing_slashes(s: Seq<char>) -> Seq<char>
    decreases s.len(),
{
    if s.len() > 0 && s.last() == '/' {
        without_trailing_slashes(s.drop_last())
    } else {
        s
    }
}

/// The part of `s` after its last `/` (all of `s` when it has none).
pub open spec fn last_segment(s: Seq<char>) -> Seq<char> {
    match last_index_of(s, '/') {
        Some(i) => s.subrange(i + 1, s.len() as int),
        None => s,
    }
}

/// A path separator on some platform.
pub open spec fn is_separator(c: char) -> bool {
    c == '/' || c == '\\'
}

/// The last component of `path` is, on every platform, the text after its
/// last `/` once trailing `/` are dropped: that text is not empty, holds no
/// `\` or `:`, is not `.` or `..`, and the path does not start with two
/// separators (a network or device prefix).
pub open spec fn plain_last_component(path: Seq<char>) -> bool {
    let seg = last_segment(without_trailing_slashes(path));
    &&& !(path.len() >= 2 && is_separator(path[0]) && is_separator(path[1]))
    &&& seg.len() > 0
    &&& text::lacks_char(seg, '\\')
    &&& text::lacks_char(seg, ':')
    &&& seg != seq!['.']
    &&& seg != seq!['.', '.']
}

/// What `Path::file_name` gives for `path`, as far as it is stated: a name
/// that is not empty and holds no `/`; none for the empty path; the text
/// after the last `/` when that is plainly the last component.
pub open spec fn file_name_fits(path: Seq<char>, n: Option<Seq<char>>) -> bool {
    &&& n matches Some(t) ==> t.len() > 0 && text::lacks_char(t, '/')
    &&& path.len() == 0 ==> n is None
    &&& plain_last_component(path) ==> n == Some(last_segment(without_trailing_slashes(path)))
}

/// `Path::file_name`: the last component of `path` when it is a normal
/// name (see `file_name_fits`). Which component that is for other paths
/// depends on the platform's path rules and is not stated.
#[verifier::external_body]
fn path_file_name(path: &str) -> (r: Option<String>)
    ensures
        file_name_fits(path@, opt_view(r)),
{
    match std::path::Path::new(path).file_name() {
        Some(n) => match n.to_str() {
            Some(s) => Some(s.to_string()),
            None => None,
        },
        None => None,
    }
}

/// A name with no `/`, `\` or `:`, other than `.` and `..`: one plain
/// component, relative, on every platform.
pub open spec fn plain_name(name: Seq<char>) -> bool {
    &&& text::lacks_char(name, '/')
    &&& text::lacks_char(name, '\\')
    &&& text::lacks_char(name, ':')
    &&& name != seq!['.']
    &&& name != seq!['.', '.']
}

/// A Windows verbatim path (`\\?\...`, with either separator), which
/// `Path::join` rebuilds from its components.
pub open spec fn is_verbatim(base: Seq<char>) -> bool {
    base.len() >= 4 && is_separator(base[0]) && is_separator(base[1]) && base[2] == '?'
        && is_separator(base[3])
}

/// What `Path::join` gives for `base` and a plain `name`, on every platform:
/// a text ending with `name`; unless `base` is verbatim, `base` and `name`
/// with at most one separator between them, and none when `base` is empty
/// or already ends with `/`.
pub open spec fn join_fits(base: Seq<char>, name: Seq<char>, r: Seq<char>) -> bool {
    plain_name(name) ==> {
        &&& text::ends_with(r, name)
        &&& !is_verbatim(base) ==> {
            &&& (r == base + name || r == base + seq!['/'] + name || r == base + seq!['\\'] + name)
            &&& (base.len() == 0 || text::ends_with_char(base, '/')) ==> r == base + name
        }
    }
}

/// `Path::join` of `base` and `name`, as text (see `join_fits`). Which
/// separator it puts between them depends on the platform and is not stated.
#[verifier::external_body]
pub(crate) fn path_join(base: &str, name: &str) -> (r: String)
    ensures
        join_fits(base@, name@, r@),
{
    std::path::Path::new(base).join(name).to_string_lossy().to_string()
}

/// The path a record's fallback name is taken from: its full path, else its container path.
pub open spec fn fallback_source(f: RecordFieldsView) -> Seq<char> {
    if f.full_path.len() > 0 {
        f.full_path
    } else {
        f.container
    }
}

/// The name a record's result carries: its own, else the fallback name.
pub open spec fn record_name(f: RecordFieldsView, fallback_name: Seq<char>) -> Seq<char> {
    match f.name {
        Some(n) => n,
        None => fallback_name,
    }
}

/// The fallback name and joined path used for record `f` are what
/// `Path::file_name` and `Path::join` give: the file name of the fallback
/// source (empty when it has none), and the container joined with the name.
pub open spec fn pick_fits(f: RecordFieldsView, fallback_name: Seq<char>, joined: Seq<char>) -> bool {
    &&& f.name is None ==> file_name_fits(
        fallback_source(f),
        if fallback_name.len() == 0 {
            None
        } else {
            Some(fallback_name)
        },
    )
    &&& (f.full_path.len() == 0 && f.container.len() > 0 && record_name(f, fallback_name).len()
        > 0) ==> join_fits(f.container, record_name(f, fallback_name), joined)
}

/// The search result a record gives: its name is the record's name, else
/// the file name of its full path (else of its container path); its path is
/// the full path, else the container path joined with the name.
pub fn search_result_from_record(f: &RecordFields) -> (r: Option<SearchResult>)
    ensures
        exists|fallback_name: Seq<char>, joined: Seq<char>|
            {
                &&& result_view(r) == #[trigger] record_result(f@, fallback_name, joined)
                &&& pick_fits(f@, fallback_name, joined)
            },
{
    let fallback = match &f.name {
        Some(_) => String::new(),
        None => {
            let source = if f.full_path.unicode_len() > 0 {
                f.full_path.as_str()
            } else {
                f.container.as_str()
            };
            match path_file_name(source) {
                Some(n) => n,
                None => String::new(),
            }
        },
    };
    let name_len = match &f.name {
        Some(n) => n.unicode_len(),
        None => fallback.unicode_len(),
    };
    let joined = if f.full_path.unicode_len() == 0 && f.container.unicode_len() > 0 && name_len > 0 {
        match &f.name {
            Some(n) => path_join(f.container.as_str(), n.as_str()),
            None => path_join(f.container.as_str(), fallback.as_str()),
        }
    } else {
        String::new()
    };
    let r = finish_record(f, fallback.as_str(), joined.as_str());
    assert(result_view(r) == record_result(f@, fallback@, joined@));
    r
}

/// The results the records give, in order, when record `i` reads its fallback
/// name and joined path from `picks[i]`; records that are not objects, or
/// give no result, are skipped.
pub open spec fn collected(records: Seq<JsonValue>, picks: Seq<(Seq<char>, Seq<char>)>) -> Seq<SearchResultView>
    decreases records.len(),
{
    if records.len() == 0 {
        Seq::empty()
    } else {
        let before = collected(records.drop_last(), picks.drop_last());
        match record_fields(records.last()) {
            Some(f) => match record_result(f, picks.last().0, picks.last().1) {
                Some(x) => before.push(x),
                None => before,
            },
            None => before,
        }
    }
}

/// `r` is `found` with each kind settled as `normalize_search_result` does.
pub open spec fn normalized_all(r: Seq<SearchResult>, found: Seq<SearchResultView>) -> bool {
    &&& r.len() == found.len()
    &&& forall|i: int|
        0 <= i < r.len() ==> {
            &&& (#[trigger] r[i])@.name == found[i].name
            &&& r[i]@.path == found[i].path
            &&& exists|d: bool| r[i]@.kind == #[trigger] normalized_kind(found[i], d)
            &&& folder_hint(found[i]) ==> r[i]@.kind == "folder"@
            &&& text::trim(found[i].path).len() == 0 ==> r[i]@.kind == normalized_kind(found[i], false)
        }
}

/// `r` are the search results of the Everything engine's answer `v`: one for
/// each record that is an object with a path or a name, in order (see
/// `record_result`; the file names and joined paths come from the platform's
/// path rules), kinds settled as `normalize_search_result` does.
pub open spec fn everything_answer(r: Seq<SearchResult>, v: JsonValue) -> bool {
    exists|picks: Seq<(Seq<char>, Seq<char>)>|
        {
            &&& picks.len() == everything_records(v).len()
            &&& forall|i: int|
                0 <= i < picks.len() ==> (record_fields(everything_records(v)[i]) matches Some(f)
                    ==> pick_fits(f, (#[trigger] picks[i]).0, picks[i].1))
            &&& normalized_all(r, #[trigger] collected(everything_records(v), picks))
        }
}

/// The search results of an answer from the Everything engine (see `everything_answer`).
pub fn everything_results(value: &JsonValue) -> (r: Vec<SearchResult>)
    ensures
        everything_answer(r@, *value),
{
    let mut found: Vec<SearchResult> = Vec::new();
    let ghost records_all = everything_records(*value);
    let ghost mut picks: Seq<(Seq<char>, Seq<char>)> = Seq::empty();
    match records_of(value) {
        Some(records) => {
            let mut i: usize = 0;
            assert(records@.subrange(0, 0) =~= Seq::<JsonValue>::empty());
            while i < records.len()
                invariant
                    i <= records.len(),
                    picks.len() == i,
                    forall|k: int|
                        0 <= k < picks.len() ==> (record_fields(records@[k]) matches Some(f)
                            ==> pick_fits(f, (#[trigger] picks[k]).0, picks[k].1)),
                    found.len() == collected(records@.subrange(0, i as int), picks).len(),
                    forall|j: int|
                        0 <= j < found.len() ==> (#[trigger] found@[j])@ == collected(
                            records@.subrange(0, i as int),
                            picks,
                        )[j],
                decreases records.len() - i,
            {
                let ghost before = collected(records@.subrange(0, i as int), picks);
                let ghost pick: (Seq<char>, Seq<char>) = (Seq::empty(), Seq::empty());
                match read_record(&records[i]) {
                    Some(f) => {
                        let x = search_result_from_record(&f);
                        proof {
                            pick = choose|fb: Seq<char>, jn: Seq<char>|
                                {
                                    &&& result_view(x) == #[trigger] record_result(f@, fb, jn)
                                    &&& pick_fits(f@, fb, jn)
                                };
                        }
                        match x {
                            Some(x) => found.push(x),
                            None => {},
                        }
                    },
                    None => {},
                }
                proof {
                    let next = records@.subrange(0, i + 1);
                    assert(next.drop_last() =~= records@.subrange(0, i as int));
                    assert(next.last() == records@[i as int]);
                    assert(picks.push(pick).drop_last() =~= picks);
                    picks = picks.push(pick);
                }
                i = i + 1;
            }
            assert(records@.subrange(0, records.len() as int) =~= records@);
        },
        None => {},
    }
    let r = normalize_search_results(found);
    assert(normalized_all(r@, collected(records_all, picks)));
    r
}

/// The search results of the Everything engine's answer `json_text` (see
/// `everything_answer`), or `invalid Everything HTTP JSON: <reason>` when
/// it is not a JSON document.
pub fn parse_everything_http_results(json_text: &str) -> (r: Result<Vec<SearchResult>, String>)
    ensures
        match json::parsed_json(json_text@) {
            Ok(v) => r matches Ok(list) && everything_answer(list@, v),
            Err(reason) => r matches Err(e) && e@ == "invalid Everything HTTP JSON: "@ + reason,
        },
{
    match json::parse_json(json_text) {
        Ok(value) => Ok(everything_results(&value)),
        Err(reason) => {
            let mut e = String::from_str("invalid Everything HTTP JSON: ");
            e.append(reason.as_str());
            Err(e)
        },
    }
}

/// The position of the last `c` in `s`.
pub open spec fn last_index_of(s: Seq<char>, c: char) -> Option<int>
    decreases s.len(),
{
    if s.len() == 0 {
        None
    } else if s.last() == c {
        Some(s.len() - 1)
    } else {
        last_index_of(s.drop_last(), c)
    }
}

/// `Path::extension` of a file name: the text after its last dot; none when
/// it has no dot, when its only dot is the first character, or when it is `..`.
pub open spec fn extension_of(name: Seq<char>) -> Option<Seq<char>> {
    if name == seq!['.', '.'] {
        None
    } else {
        match last_index_of(name, '.') {
            Some(i) => if i == 0 {
                None
            } else {
                Some(name.subrange(i + 1, name.len() as int))
            },
            None => None,
        }
    }
}

fn last_dot(v: &Vec<char>) -> (r: Option<usize>)
    ensures
        match r {
            Some(i) => last_index_of(v@, '.') == Some(i as int) && i < v.len(),
            None => last_index_of(v@, '.') is None,
        },
{
    let mut j: usize = v.len();
    assert(v@.subrange(0, j as int) =~= v@);
    while j > 0
        invariant
            j <= v.len(),
            last_index_of(v@, '.') == last_index_of(v@.subrange(0, j as int), '.'),
        decreases j,
    {
        if v[j - 1] == '.' {
            return Some(j - 1);
        }
        assert(v@.subrange(0, j as int).drop_last() =~= v@.subrange(0, j - 1));
        j = j - 1;
    }
    None
}

fn subrange_string(v: &Vec<char>, from: usize, to: usize) -> (r: String)
    requires
        from <= to <= v.len(),
    ensures
        r@ == v@.subrange(from as int, to as int),
{
    let mut out: Vec<char> = Vec::new();
    let mut k: usize = from;
    while k < to
        invariant
            from <= k <= to <= v.len(),
            out@ == v@.subrange(from as int, k as int),
        decreases to - k,
    {
        out.push(v[k]);
        k = k + 1;
    }
    text::string_from_chars(&out)
}

/// The extension of the file name `name` (see `extension_of`).
pub fn extension(name: &str) -> (r: Option<String>)
    ensures
        opt_view(r) == extension_of(name@),
{
    let v = chars_of(name);
    if v.len() == 2 && v[0] == '.' && v[1] == '.' {
        assert(v@ =~= seq!['.', '.']);
        return None;
    }
    assert(v@ != seq!['.', '.']);
    match last_dot(&v) {
        Some(i) => if i == 0 {
            None
        } else {
            Some(subrange_string(&v, i + 1, v.len()))
        },
        None => None,
    }
}

/// The kind of a file with extension `ext` (ignoring ASCII case).
pub open spec fn extension_kind(ext: Option<Seq<char>>) -> Seq<char> {
    let e = text::lower(or_empty(ext));
    if e == "png"@ || e == "jpg"@ || e == "jpeg"@ || e == "gif"@ || e == "bmp"@ || e == "svg"@ || e
        == "webp"@ {
        "image"@
    } else if e == "mp4"@ || e == "mkv"@ || e == "avi"@ || e == "mov"@ || e == "wmv"@ {
        "video"@
    } else if e == "mp3"@ || e == "wav"@ || e == "flac"@ || e == "aac"@ || e == "m4a"@ {
        "audio"@
    } else if e == "exe"@ || e == "msi"@ || e == "bat"@ || e == "cmd"@ {
        "application"@
    } else {
        "document"@
    }
}

/// The kind shown for an item found on disk: `"folder"` for a directory,
/// else the kind of its file name's extension.
pub open spec fn item_kind(is_dir: bool, file_name: Option<Seq<char>>) -> Seq<char> {
    if is_dir {
        "folder"@
    } else {
        match file_name {
            Some(n) => extension_kind(extension_of(n)),
            None => extension_kind(None),
        }
    }
}

fn is_one_of(e: &String, options: &Vec<&str>) -> (r: bool)
    ensures
        r == exists|i: int| 0 <= i < options.len() && e@ == (#[trigger] options@[i])@,
{
    let mut i: usize = 0;
    while i < options.len()
        invariant
            i <= options.len(),
            forall|j: int| 0 <= j < i ==> e@ != (#[trigger] options@[j])@,
        decreases options.len() - i,
    {
        if *e == String::from_str(options[i]) {
            return true;
        }
        i = i + 1;
    }
    false
}

/// The kind of a file with extension `ext` (see `extension_kind`).
pub fn kind_for_extension(ext: Option<&str>) -> (r: String)
    ensures
        r@ == extension_kind(match ext {
            Some(e) => Some(e@),
            None => None,
        }),
{
    let chars = match ext {
        Some(e) => chars_of(e),
        None => Vec::new(),
    };
    let e = text::string_from_chars(&lower_chars(&chars));
    let images = vec!["png", "jpg", "jpeg", "gif", "bmp", "svg", "webp"];
    let videos = vec!["mp4", "mkv", "avi", "mov", "wmv"];
    let audio = vec!["mp3", "wav", "flac", "aac", "m4a"];
    let apps = vec!["exe", "msi", "bat", "cmd"];
    let image = is_one_of(&e, &images);
    let video = is_one_of(&e, &videos);
    let sound = is_one_of(&e, &audio);
    let app = is_one_of(&e, &apps);
    proof {
        assert(image == (e@ == "png"@ || e@ == "jpg"@ || e@ == "jpeg"@ || e@ == "gif"@ || e@
            == "bmp"@ || e@ == "svg"@ || e@ == "webp"@)) by {
            if e@ == "png"@ { assert(e@ == images@[0]@); }
            if e@ == "jpg"@ { assert(e@ == images@[1]@); }
            if e@ == "jpeg"@ { assert(e@ == images@[2]@); }
            if e@ == "gif"@ { assert(e@ == images@[3]@); }
            if e@ == "bmp"@ { assert(e@ == images@[4]@); }
            if e@ == "svg"@ { assert(e@ == images@[5]@); }
            if e@ == "webp"@ { assert(e@ == images@[6]@); }
        }
        assert(video == (e@ == "mp4"@ || e@ == "mkv"@ || e@ == "avi"@ || e@ == "mov"@ || e@
            == "wmv"@)) by {
            if e@ == "mp4"@ { assert(e@ == videos@[0]@); }
            if e@ == "mkv"@ { assert(e@ == videos@[1]@); }
            if e@ == "avi"@ { assert(e@ == videos@[2]@); }
            if e@ == "mov"@ { assert(e@ == videos@[3]@); }
            if e@ == "wmv"@ { assert(e@ == videos@[4]@); }
        }
        assert(sound == (e@ == "mp3"@ || e@ == "wav"@ || e@ == "flac"@ || e@ == "aac"@ || e@
            == "m4a"@)) by {
            if e@ == "mp3"@ { assert(e@ == audio@[0]@); }
            if e@ == "wav"@ { assert(e@ == audio@[1]@); }
            if e@ == "flac"@ { assert(e@ == audio@[2]@); }
            if e@ == "aac"@ { assert(e@ == audio@[3]@); }
            if e@ == "m4a"@ { assert(e@ == audio@[4]@); }
        }
        assert(app == (e@ == "exe"@ || e@ == "msi"@ || e@ == "bat"@ || e@ == "cmd"@)) by {
            if e@ == "exe"@ { assert(e@ == apps@[0]@); }
            if e@ == "msi"@ { assert(e@ == apps@[1]@); }
            if e@ == "bat"@ { assert(e@ == apps@[2]@); }
            if e@ == "cmd"@ { assert(e@ == apps@[3]@); }
        }
    }
    if image {
        String::from_str("image")
    } else if video {
        String::from_str("video")
    } else if sound {
        String::from_str("audio")
    } else if app {
        String::from_str("application")
    } else {
        String::from_str("document")
    }
}

/// The kind shown for an item found on disk (see `item_kind`).
pub fn kind_for_item(is_dir: bool, file_name: Option<&str>) -> (r: String)
    ensures
        r@ == item_kind(is_dir, match file_name {
            Some(n) => Some(n@),
            None => None,
        }),
{
    if is_dir {
        return String::from_str("folder");
    }
    match file_name {
        Some(n) => {
            let ext = extension(n);
            match &ext {
                Some(e) => kind_for_extension(Some(e.as_str())),
                None => kind_for_extension(None),
            }
        },
        None => kind_for_extension(None),
    }
}

/// The kind shown for the item at `path`: `"folder"` when it is a directory
/// on disk (never for the empty path), else the kind its file name's
/// extension gives (see `file_name_fits`).
pub fn file_kind(path: &str) -> (r: String)
    ensures
        exists|is_dir: bool, name: Option<Seq<char>>|
            {
                &&& r@ == #[trigger] item_kind(is_dir, name)
                &&& file_name_fits(path@, name)
                &&& path@.len() == 0 ==> !is_dir
            },
{
    let name = path_file_name(path);
    if path.unicode_len() > 0 && path_is_dir(path) {
        let r = String::from_str("folder");
        assert(r@ == item_kind(true, opt_view(name)));
        return r;
    }
    match &name {
        Some(n) => {
            let r = kind_for_item(false, Some(n.as_str()));
            assert(r@ == item_kind(false, opt_view(name)));
            r
        },
        None => {
            let r = kind_for_item(false, None);
            assert(r@ == item_kind(false, opt_view(name)));
            r
        },
    }
}

} // verus!
