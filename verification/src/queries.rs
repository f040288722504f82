//! The requests the search engines are sent and the first reading of their
//! answers: the Everything engine's HTTP request, the PowerShell query of
//! the Windows index, and the walk over the file system.

use vstd::prelude::*;
use crate::search::{self, path_exists, path_join, same_path, SearchResult};
use crate::text::{
    self, chars_of, contains_chars, escape_ps_single_quote, lower_chars, string_from_chars,
    trim_str,
};

verus! {

/// A byte that URL encoding keeps: ASCII letters and digits, `-`, `.`, `_`, `~`.
pub open spec fn url_unreserved(b: u8) -> bool {
    ||| (48 <= b && b <= 57)
    ||| (65 <= b && b <= 90)
    ||| (97 <= b && b <= 122)
    ||| b == 45 || b == 46 || b == 95 || b == 126
}

/// An upper-case hexadecimal digit.
pub open spec fn hex_digit(d: u8) -> char {
    if d < 10 {
        (48 + d) as char
    } else {
        (55 + d) as char
    }
}

/// How URL encoding writes one byte: kept when unreserved, else `%` and two
/// upper-case hexadecimal digits.
pub open spec fn percent_byte(b: u8) -> Seq<char> {
    if url_unreserved(b) {
        seq![b as char]
    } else {
        seq!['%', hex_digit(b / 16), hex_digit(b % 16)]
    }
}

/// The URL encoding of `bytes`.
pub open spec fn percent_encoded(bytes: Seq<u8>) -> Seq<char>
    decreases bytes.len(),
{
    if bytes.len() == 0 {
        Seq::empty()
    } else {
        percent_encoded(bytes.drop_last()) + percent_byte(bytes.last())
    }
}

/// `urlencoding::encode`: percent-encodes every UTF-8 byte of `text` but
/// ASCII letters, digits and `-`, `_`, `.`, `~`, with upper-case hex digits.
#[verifier::external_body]
fn url_encode(text: &str) -> (r: String)
    ensures
        r@ == percent_encoded(vstd::utf8::encode_utf8(text@)),
{
    urlencoding::encode(text).into_owned()
}

/// A character URL encoding may write: an unreserved one, or `%` and the
/// hexadecimal digits of an escape.
pub open spec fn url_safe_char(c: char) -> bool {
    ||| ('0' <= c && c <= '9')
    ||| ('A' <= c && c <= 'Z')
    ||| ('a' <= c && c <= 'z')
    ||| c == '-' || c == '.' || c == '_' || c == '~' || c == '%'
}

/// URL encoding writes only unreserved characters, `%` and hexadecimal
/// digits: the encoded query holds no `&`, `=`, `#`, `?`, `+` or space, so it
/// stays one parameter of the request, whatever the query.
pub proof fn lemma_percent_encoded_one_parameter(bytes: Seq<u8>)
    ensures
        forall|i: int| 0 <= i < percent_encoded(bytes).len() ==> url_safe_char(#[trigger] percent_encoded(bytes)[i]),
    decreases bytes.len(),
{
    if bytes.len() > 0 {
        let p = bytes.drop_last();
        let b = bytes.last();
        lemma_percent_encoded_one_parameter(p);
        let e = percent_encoded(p);
        let t = percent_byte(b);
        assert(b / 16 < 16 && b % 16 < 16);
        assert forall|j: int| 0 <= j < t.len() implies url_safe_char(#[trigger] t[j]) by {}
        let q = percent_encoded(bytes);
        assert(q == e + t);
        assert forall|i: int| 0 <= i < q.len() implies url_safe_char(#[trigger] q[i]) by {
            if i < e.len() {
                assert(q[i] == e[i]);
            } else {
                assert(q[i] == t[i - e.len()]);
            }
        }
    }
}

/// The query part of a request to the Everything engine's HTTP server for
/// `query`: the first 30 hits, sorted by name, with their paths, as JSON.
pub open spec fn everything_search_path_text(query: Seq<char>) -> Seq<char> {
    "/?search="@ + percent_encoded(vstd::utf8::encode_utf8(query))
        + "&offset=0&count=30&json=1&path_column=1&sort=name&ascending=1"@
}

/// The request path that asks the Everything engine for `query`.
pub fn everything_search_path(query: &str) -> (r: String)
    ensures
        r@ == everything_search_path_text(query@),
{
    let encoded = url_encode(query);
    let mut path = String::from_str("/?search=");
    path.append(encoded.as_str());
    path.append("&offset=0&count=30&json=1&path_column=1&sort=name&ascending=1");
    path
}

/// The request path that asks whether the Everything engine answers yet.
pub fn everything_probe_path() -> (r: String)
    ensures
        r@ == "/?search=&count=0&json=1"@,
{
    String::from_str("/?search=&count=0&json=1")
}

/// The decimal digits of `n`.
pub open spec fn decimal(n: nat) -> Seq<char>
    decreases n,
{
    if n < 10 {
        seq![(48 + n) as char]
    } else {
        decimal(n / 10).push((48 + n % 10) as char)
    }
}

fn decimal_chars(n: u128) -> (r: Vec<char>)
    ensures
        r@ == decimal(n as nat),
    decreases n,
{
    let digit: u8 = (n % 10) as u8;
    let c = (48u8 + digit) as char;
    if n < 10 {
        let mut v: Vec<char> = Vec::new();
        v.push(c);
        assert(v@ =~= seq![(48 + n) as char]);
        v
    } else {
        let mut v = decimal_chars(n / 10);
        v.push(c);
        v
    }
}

/// `n` written in decimal.
pub fn decimal_text(n: u128) -> (r: String)
    ensures
        r@ == decimal(n as nat),
{
    string_from_chars(&decimal_chars(n))
}

/// The HTTP/1.1 request for `path` on `host:port` that closes the connection after the answer.
pub open spec fn http_request_text(host: Seq<char>, port: u16, path: Seq<char>) -> Seq<char> {
    "GET "@ + path + " HTTP/1.1\r\nHost: "@ + host + ":"@ + decimal(port as nat)
        + "\r\nConnection: close\r\n\r\n"@
}

/// The HTTP request the search sends to the Everything engine.
pub fn http_request(host: &str, port: u16, path: &str) -> (r: String)
    ensures
        r@ == http_request_text(host@, port, path@),
{
    let mut req = String::from_str("GET ");
    req.append(path);
    req.append(" HTTP/1.1\r\nHost: ");
    req.append(host);
    req.append(":");
    let port_text = decimal_text(port as u128);
    req.append(port_text.as_str());
    req.append("\r\nConnection: close\r\n\r\n");
    req
}

/// The first position at or after `i` where `pat` occurs in `s`.
pub open spec fn find_from(s: Seq<char>, pat: Seq<char>, i: int) -> Option<int>
    decreases s.len() + 1 - i,
{
    if i < 0 || i + pat.len() > s.len() {
        None
    } else if text::occurs_at(s, pat, i) {
        Some(i)
    } else {
        find_from(s, pat, i + 1)
    }
}

/// The body of an HTTP response: what follows the first blank line, or the
/// whole response when it has none.
pub open spec fn http_body_text(response: Seq<char>) -> Seq<char> {
    match find_from(response, "\r\n\r\n"@, 0) {
        Some(i) => response.subrange(i + 4, response.len() as int),
        None => response,
    }
}

fn occurs_here(s: &Vec<char>, pat: &Vec<char>, i: usize) -> (r: bool)
    requires
        i + pat.len() <= s.len(),
    ensures
        r == text::occurs_at(s@, pat@, i as int),
{
    let mut k: usize = 0;
    while k < pat.len()
        invariant
            i + pat.len() <= s.len(),
            k <= pat.len(),
            forall|j: int| 0 <= j < k ==> s@[i + j] == pat@[j],
        decreases pat.len() - k,
    {
        if s[i + k] != pat[k] {
            assert(s@.subrange(i as int, i + pat.len())[k as int] != pat@[k as int]);
            return false;
        }
        k = k + 1;
    }
    assert(s@.subrange(i as int, i + pat.len()) =~= pat@);
    true
}

/// The body of an HTTP response (see `http_body_text`).
pub fn http_body(response: &str) -> (r: String)
    ensures
        r@ == http_body_text(response@),
{
    let s = chars_of(response);
    let sep = chars_of("\r\n\r\n");
    proof {
        reveal_strlit("\r\n\r\n");
    }
    let mut i: usize = 0;
    while i < s.len() && s.len() - i >= 4
        invariant
            s@ == response@,
            sep@ == "\r\n\r\n"@,
            sep.len() == 4,
            i <= s.len(),
            find_from(s@, sep@, 0) == find_from(s@, sep@, i as int),
        decreases s.len() - i,
    {
        if occurs_here(&s, &sep, i) {
            let mut out: Vec<char> = Vec::new();
            let mut k: usize = i + 4;
            while k < s.len()
                invariant
                    i + 4 <= k <= s.len(),
                    out@ == s@.subrange(i + 4, k as int),
                decreases s.len() - k,
            {
                out.push(s[k]);
                k = k + 1;
            }
            return string_from_chars(&out);
        }
        i = i + 1;
    }
    String::from_str(response)
}

/// Whether an answer of the Everything engine looks like JSON yet.
pub fn everything_http_ready(body: &str) -> (r: bool)
    ensures
        r == (text::contains(body@, seq!['{']) || text::contains(body@, seq!['['])),
{
    let b = chars_of(body);
    let mut open_brace: Vec<char> = Vec::new();
    open_brace.push('{');
    let mut open_bracket: Vec<char> = Vec::new();
    open_bracket.push('[');
    contains_chars(&b, &open_brace) || contains_chars(&b, &open_bracket)
}

/// `query` holds nothing but whitespace.
pub fn query_is_blank(query: &str) -> (r: bool)
    ensures
        r == (text::trim(query@).len() == 0),
{
    let t = trim_str(query);
    t.unicode_len() == 0
}

/// The start of the PowerShell command that searches the Windows index.
pub open spec fn windows_search_head() -> Seq<char> {
    "$ErrorActionPreference='Stop'\n[Console]::OutputEncoding = [System.Text.Encoding]::UTF8\n$q = '"@
}

/// The rest of the PowerShell command that searches the Windows index.
pub open spec fn windows_search_tail() -> Seq<char> {
    r#"'
$conn = New-Object -ComObject ADODB.Connection
$conn.Open(""Provider=Search.CollatorDSO;Extended Properties='Application=Windows'"")
$sql = ""SELECT TOP 30 System.ItemName, System.ItemPathDisplay, System.Kind FROM SystemIndex WHERE SCOPE='file:' AND System.ItemName LIKE '%"" + $q.Replace(""'"", ""''"") + ""%'"" 
$rs = $conn.Execute($sql)
$items = @()
while (-not $rs.EOF) {
  $name = [string]$rs.Fields.Item('System.ItemName').Value
  $path = [string]$rs.Fields.Item('System.ItemPathDisplay').Value
  $kind = [string]$rs.Fields.Item('System.Kind').Value
  if ($name -and $path) {
    $items += [pscustomobject]@{ name = $name; path = $path; kind = $kind }
  }
  $rs.MoveNext()
}
$conn.Close()
$items | ConvertTo-Json -Compress"#@
}

/// The PowerShell command that asks the Windows index for up to 30 items
/// whose name holds `query`, and prints them as JSON; the query is put in a
/// single-quoted literal, escaped.
pub fn search_by_windows_search(query: &str) -> (r: String)
    ensures
        r@ == windows_search_head() + text::ps_quoted(query@) + windows_search_tail(),
{
    let safe = escape_ps_single_quote(query);
    let mut script = String::from_str(
        "$ErrorActionPreference='Stop'\n[Console]::OutputEncoding = [System.Text.Encoding]::UTF8\n$q = '",
    );
    script.append(safe.as_str());
    script.append(
        r#"'
$conn = New-Object -ComObject ADODB.Connection
$conn.Open(""Provider=Search.CollatorDSO;Extended Properties='Application=Windows'"")
$sql = ""SELECT TOP 30 System.ItemName, System.ItemPathDisplay, System.Kind FROM SystemIndex WHERE SCOPE='file:' AND System.ItemName LIKE '%"" + $q.Replace(""'"", ""''"") + ""%'"" 
$rs = $conn.Execute($sql)
$items = @()
while (-not $rs.EOF) {
  $name = [string]$rs.Fields.Item('System.ItemName').Value
  $path = [string]$rs.Fields.Item('System.ItemPathDisplay').Value
  $kind = [string]$rs.Fields.Item('System.Kind').Value
  if ($name -and $path) {
    $items += [pscustomobject]@{ name = $name; path = $path; kind = $kind }
  }
  $rs.MoveNext()
}
$conn.Close()
$items | ConvertTo-Json -Compress"#,
    );
    script
}

/// What the Windows index search printed: nothing, a JSON array of results,
/// or a single JSON result (the trimmed text in both cases).
#[derive(Clone, Debug, PartialEq, Eq)]
pub enum SearchOutput {
    Empty,
    List(String),
    Single(String),
}

/// How the printed text `text` is read: nothing when it is blank or `null`,
/// an array when it starts with `[`, else a single result.
pub open spec fn search_output_kind(text: Seq<char>) -> (bool, bool) {
    let t = text::trim(text);
    (t.len() == 0 || t == "null"@, text::starts_with_char(t, '['))
}

/// Reads what the Windows index search printed (see `search_output_kind`).
pub fn classify_search_output(text: &str) -> (r: SearchOutput)
    ensures
        match r {
            SearchOutput::Empty => search_output_kind(text@).0,
            SearchOutput::List(t) => !search_output_kind(text@).0 && search_output_kind(text@).1
                && t@ == text::trim(text@),
            SearchOutput::Single(t) => !search_output_kind(text@).0 && !search_output_kind(
                text@,
            ).1 && t@ == text::trim(text@),
        },
{
    let t = trim_str(text);
    let n = t.unicode_len();
    if n == 0 || t == String::from_str("null") {
        return SearchOutput::Empty;
    }
    if t.as_str().get_char(0) == '[' {
        SearchOutput::List(t)
    } else {
        SearchOutput::Single(t)
    }
}

/// At most this many results come from walking the file system.
pub const FILESYSTEM_MAX_RESULTS: usize = 40;

/// What a file name must hold to match `query` on the file system: the
/// query, trimmed and ASCII-lowered.
pub fn filesystem_needle(query: &str) -> (r: Vec<char>)
    ensures
        r@ == text::lower(text::trim(query@)),
{
    let t = trim_str(query);
    lower_chars(&chars_of(t.as_str()))
}

/// A file name matches when, ASCII-lowered, it holds the needle.
pub fn name_matches(name: &str, needle: &Vec<char>) -> (r: bool)
    ensures
        r == text::contains(text::lower(name@), needle@),
{
    contains_chars(&lower_chars(&chars_of(name)), needle)
}

/// Directories the file-system walk never enters.
pub open spec fn skipped_directory(name: Seq<char>) -> bool {
    ||| name == "$Recycle.Bin"@
    ||| name == "Windows"@
    ||| name == "Program Files"@
    ||| name == "Program Files (x86)"@
    ||| name == "ProgramData"@
    ||| name == "node_modules"@
    ||| name == "target"@
    ||| name == ".git"@
}

/// Whether the file-system walk enters the entry named `name` at `depth`:
/// always the root and anything that is not a directory, else every
/// directory but the skipped ones.
pub fn should_descend(depth: usize, is_dir: bool, name: &str) -> (r: bool)
    ensures
        r == (depth == 0 || !is_dir || !skipped_directory(name@)),
{
    if depth == 0 || !is_dir {
        return true;
    }
    let n = String::from_str(name);
    !(n == String::from_str("$Recycle.Bin") || n == String::from_str("Windows") || n
        == String::from_str("Program Files") || n == String::from_str("Program Files (x86)") || n
        == String::from_str("ProgramData") || n == String::from_str("node_modules") || n
        == String::from_str("target") || n == String::from_str(".git"))
}

/// The result the file-system walk records for a matching entry.
pub fn filesystem_result(name: &str, path: &str, is_dir: bool) -> (r: SearchResult)
    ensures
        r@.name == name@,
        r@.path == path@,
        r@.kind == search::item_kind(is_dir, Some(name@)),
{
    SearchResult {
        name: String::from_str(name),
        path: String::from_str(path),
        kind: search::kind_for_item(is_dir, Some(name)),
    }
}


/// The root of drive `letter`: the letter, `:` and `\`.
pub open spec fn drive_root(letter: char) -> Seq<char> {
    seq![letter, ':', '\\']
}

/// The folders under the user's profile that the file-system walk starts from.
pub open spec fn profile_children() -> Seq<Seq<char>> {
    seq!["Desktop"@, "Documents"@, "Downloads"@, "Pictures"@, "Music"@, "Videos"@, "OneDrive"@]
}

/// `n` when `b` holds, else nothing.
pub open spec fn count_if(b: bool, n: int) -> int {
    if b {
        n
    } else {
        0
    }
}

/// `c` lists the places the file-system walk may start from, in order: the
/// working directory, the user's profile folder and its usual subfolders,
/// then the root of every drive from `C:` to `Z:`.
pub open spec fn root_candidates(current_dir: Option<&str>, user_profile: Option<&str>, c: Seq<String>) -> bool {
    let k = count_if(current_dir is Some, 1);
    let head = k + count_if(user_profile is Some, 8);
    &&& c.len() == head + 24
    &&& current_dir matches Some(d) ==> c[0]@ == d@
    &&& user_profile matches Some(p) ==> {
        &&& c[k]@ == p@
        &&& forall|j: int|
            0 <= j < 7 ==> search::join_fits(p@, profile_children()[j], #[trigger] c[k + 1 + j]@)
    }
    &&& forall|j: int| 0 <= j < 24 ==> (#[trigger] c[head + j])@ == drive_root((67 + j) as char)
}

/// The places the file-system walk may start from (see `root_candidates`).
pub fn filesystem_root_candidates(current_dir: Option<&str>, user_profile: Option<&str>) -> (r: Vec<String>)
    ensures
        root_candidates(current_dir, user_profile, r@),
{
    let mut roots: Vec<String> = Vec::new();
    match current_dir {
        Some(d) => roots.push(String::from_str(d)),
        None => {},
    }
    let ghost k: int = roots.len() as int;
    match user_profile {
        Some(p) => {
            roots.push(String::from_str(p));
            let children = vec![
                "Desktop",
                "Documents",
                "Downloads",
                "Pictures",
                "Music",
                "Videos",
                "OneDrive",
            ];
            proof {
                reveal_strlit("Desktop");
                reveal_strlit("Documents");
                reveal_strlit("Downloads");
                reveal_strlit("Pictures");
                reveal_strlit("Music");
                reveal_strlit("Videos");
                reveal_strlit("OneDrive");
                reveal_with_fuel(text::lacks_char, 10);
                assert(forall|j: int| 0 <= j < 7 ==> #[trigger] children@[j]@ == profile_children()[j]);
                assert(forall|j: int| 0 <= j < 7 ==> search::plain_name(#[trigger] profile_children()[j]));
            }
            let mut i: usize = 0;
            while i < children.len()
                invariant
                    children.len() == 7,
                    forall|j: int| 0 <= j < 7 ==> #[trigger] children@[j]@ == profile_children()[j],
                    forall|j: int| 0 <= j < 7 ==> search::plain_name(#[trigger] profile_children()[j]),
                    i <= 7,
                    roots.len() == k + 1 + i,
                    current_dir matches Some(d) ==> roots@[0]@ == d@,
                    k == count_if(current_dir is Some, 1),
                    roots@[k]@ == p@,
                    forall|j: int|
                        0 <= j < i ==> search::join_fits(p@, profile_children()[j], #[trigger] roots@[k + 1 + j]@),
                decreases 7 - i,
            {
                let child = path_join(p, children[i]);
                roots.push(child);
                i = i + 1;
            }
        },
        None => {},
    }
    let ghost head: int = roots.len() as int;
    let ghost before = roots@;
    assert(head == k + count_if(user_profile is Some, 8));
    assert(current_dir matches Some(d) ==> before[0]@ == d@);
    assert(user_profile matches Some(p) ==> before[k]@ == p@);
    assert(user_profile matches Some(p) ==> forall|j: int|
        0 <= j < 7 ==> search::join_fits(p@, profile_children()[j], #[trigger] before[k + 1 + j]@));
    let mut letter: u8 = 67;
    while letter <= 90
        invariant
            67 <= letter <= 91,
            roots.len() == head + (letter - 67),
            before.len() == head,
            forall|j: int| 0 <= j < head ==> roots@[j] == before[j],
            forall|j: int| 0 <= j < letter - 67 ==> (#[trigger] roots@[head + j])@ == drive_root((67 + j) as char),
        decreases 91 - letter,
    {
        let mut root: Vec<char> = Vec::new();
        root.push(letter as char);
        root.push(':');
        root.push('\\');
        assert(root@ =~= drive_root(letter as char));
        roots.push(text::string_from_chars(&root));
        letter = letter + 1;
    }
    assert(forall|j: int| 0 <= j < head ==> roots@[j] == before[j]);
    assert(current_dir is Some ==> roots@[0] == before[0]);
    assert(user_profile is Some ==> roots@[k] == before[k]);
    assert(user_profile is Some ==> forall|j: int|
        0 <= j < 7 ==> #[trigger] roots@[k + 1 + j] == before[k + 1 + j]);
    roots
}


/// Whether the disk said candidate `i` exists (`false` when no answer was given).
pub open spec fn answered_yes(exists: Seq<bool>, i: int) -> bool {
    0 <= i < exists.len() && exists[i]
}

/// Whether candidates `i` and `j` were found to be the same path
/// (`false` when no answer was given).
pub open spec fn same_answer(same: Seq<Seq<bool>>, i: int, j: int) -> bool {
    0 <= i < same.len() && 0 <= j < same[i].len() && same[i][j]
}

/// The positions of the candidates the walk starts from, among the first
/// `n`: in order, each candidate that exists and is the same path as none
/// kept before it.
pub open spec fn kept_roots(exists: Seq<bool>, same: Seq<Seq<bool>>, n: nat) -> Seq<int>
    decreases n,
{
    if n == 0 {
        Seq::empty()
    } else {
        let before = kept_roots(exists, same, (n - 1) as nat);
        let i = n - 1;
        if answered_yes(exists, i) && !(exists|k: int|
            0 <= k < before.len() && #[trigger] same_answer(same, i, before[k])) {
            before.push(i)
        } else {
            before
        }
    }
}

/// The answers of each row.
pub open spec fn rows(same: Seq<Vec<bool>>) -> Seq<Seq<bool>> {
    same.map_values(|row: Vec<bool>| row@)
}

/// The positions `kept` increase, and no kept candidate was found to be
/// the same path as one kept before it.
pub open spec fn kept_apart(kept: Seq<int>, same: Seq<Seq<bool>>) -> bool {
    forall|a: int, b: int|
        0 <= a < b < kept.len() ==> #[trigger] kept[a] < #[trigger] kept[b] && !same_answer(
            same,
            kept[b],
            kept[a],
        )
}

/// `r` holds the candidates at the positions `kept_roots` gives, in order.
pub open spec fn roots_picked(r: Seq<String>, candidates: Seq<String>, exists: Seq<bool>, same: Seq<Seq<bool>>) -> bool {
    let kept = kept_roots(exists, same, candidates.len());
    &&& r.len() == kept.len()
    &&& forall|a: int| 0 <= a < r.len() ==> (#[trigger] r[a])@ == candidates[kept[a]]@
}

/// The roots the file-system walk starts from, given for each candidate
/// whether it exists on disk (`exists[i]`) and, for each earlier candidate
/// `j`, whether it is the same path (`same[i][j]`): in order, each
/// candidate that exists and is the same path as no root kept before it.
pub fn pick_roots(candidates: &Vec<String>, exists: &Vec<bool>, same: &Vec<Vec<bool>>) -> (r: Vec<String>)
    ensures
        roots_picked(r@, candidates@, exists@, rows(same@)),
        r.len() <= candidates.len(),
        kept_apart(kept_roots(exists@, rows(same@), candidates.len() as nat), rows(same@)),
        forall|a: int|
            0 <= a < r.len() ==> 0 <= #[trigger] kept_roots(exists@, rows(same@), candidates.len() as nat)[a]
                < candidates.len(),
{
    let ghost sm = rows(same@);
    let mut roots: Vec<String> = Vec::new();
    let mut kept: Vec<usize> = Vec::new();
    let mut i: usize = 0;
    while i < candidates.len()
        invariant
            sm == rows(same@),
            i <= candidates.len(),
            kept@.map_values(|x: usize| x as int) == kept_roots(exists@, sm, i as nat),
            roots.len() == kept.len(),
            kept.len() <= i,
            forall|a: int| 0 <= a < kept.len() ==> #[trigger] kept@[a] < i,
            forall|a: int| 0 <= a < roots.len() ==> (#[trigger] roots@[a])@ == candidates@[kept@[a] as int]@,
            kept_apart(kept_roots(exists@, sm, i as nat), sm),
        decreases candidates.len() - i,
    {
        let ghost before = kept_roots(exists@, sm, i as nat);
        let yes = i < exists.len() && exists[i];
        let mut dup = false;
        if yes {
            let mut k: usize = 0;
            while k < kept.len()
                invariant
                    sm == rows(same@),
                    k <= kept.len(),
                    kept@.map_values(|x: usize| x as int) == before,
                    forall|a: int| 0 <= a < kept.len() ==> #[trigger] kept@[a] < i,
                    i < candidates.len(),
                    dup == exists|a: int| 0 <= a < k && #[trigger] same_answer(sm, i as int, before[a]),
                decreases kept.len() - k,
            {
                let j = kept[k];
                assert(before[k as int] == j as int);
                let s = i < same.len() && j < same[i].len() && same[i][j];
                assert(s == same_answer(sm, i as int, before[k as int]));
                if s {
                    dup = true;
                }
                k = k + 1;
            }
        }
        assert(kept_roots(exists@, sm, (i + 1) as nat) == if answered_yes(exists@, i as int) && !(exists|a: int|
            0 <= a < before.len() && #[trigger] same_answer(sm, i as int, before[a])) {
            before.push(i as int)
        } else {
            before
        });
        if yes && !dup {
            roots.push(candidates[i].clone());
            kept.push(i);
            assert(kept@.map_values(|x: usize| x as int) =~= before.push(i as int));
        }
        i = i + 1;
    }
    roots
}

/// The roots the file-system walk starts from: the candidates (see
/// `root_candidates`) that exist on disk, in order, each path once (see
/// `pick_roots`; whether a candidate exists, and which candidates are the
/// same path under the platform's rules, are what the disk and `Path`
/// equality answered; equal texts are always the same path).
pub fn filesystem_search_roots(current_dir: Option<&str>, user_profile: Option<&str>) -> (r: Vec<String>)
    ensures
        r.len() <= 33,
        exists|c: Seq<String>, ex: Seq<bool>, same: Seq<Seq<bool>>|
            {
                &&& root_candidates(current_dir, user_profile, c)
                &&& forall|i: int, j: int|
                    0 <= j < i < c.len() && c[i]@ == c[j]@ ==> #[trigger] same_answer(same, i, j)
                &&& #[trigger] roots_picked(r@, c, ex, same)
            },
        forall|i: int, j: int| 0 <= i < j < r.len() ==> (#[trigger] r@[i])@ != (#[trigger] r@[j])@,
{
    let candidates = filesystem_root_candidates(current_dir, user_profile);
    let mut exists: Vec<bool> = Vec::new();
    let mut same: Vec<Vec<bool>> = Vec::new();
    let mut i: usize = 0;
    while i < candidates.len()
        invariant
            i <= candidates.len(),
            exists.len() == i,
            same.len() == i,
            forall|a: int| 0 <= a < i ==> (#[trigger] same@[a]).len() == a,
            forall|a: int, b: int|
                0 <= b < a < i && candidates@[a]@ == candidates@[b]@ ==> #[trigger] same@[a]@[b],
        decreases candidates.len() - i,
    {
        exists.push(path_exists(candidates[i].as_str()));
        let mut row: Vec<bool> = Vec::new();
        let mut j: usize = 0;
        while j < i
            invariant
                j <= i < candidates.len(),
                row.len() == j,
                forall|b: int| 0 <= b < j && candidates@[i as int]@ == candidates@[b]@ ==> #[trigger] row@[b],
            decreases i - j,
        {
            row.push(same_path(candidates[j].as_str(), candidates[i].as_str()));
            j = j + 1;
        }
        same.push(row);
        i = i + 1;
    }
    let r = pick_roots(&candidates, &exists, &same);
    let ghost sm = rows(same@);
    assert forall|a: int, b: int|
        0 <= b < a < candidates@.len() && candidates@[a]@ == candidates@[b]@ implies #[trigger] same_answer(sm, a, b) by {
        assert(sm[a] == same@[a]@);
    }
    proof {
        let kept = kept_roots(exists@, sm, candidates.len() as nat);
        assert forall|a: int, b: int| 0 <= a < b < r.len() implies (#[trigger] r@[a])@ != (#[trigger] r@[b])@ by {
            assert(kept[a] < kept[b] && !same_answer(sm, kept[b], kept[a]));
            assert(r@[a]@ == candidates@[kept[a]]@);
            assert(r@[b]@ == candidates@[kept[b]]@);
        }
    }
    r
}

/// The search has just been asked for, or an engine has answered.
#[derive(Debug, PartialEq, Eq)]
pub enum SearchEvent {
    Started,
    EverythingAnswered(Result<Vec<SearchResult>, String>),
    WindowsSearchAnswered(Result<Vec<SearchResult>, String>),
}

/// What the search does next.
#[derive(Debug, PartialEq, Eq)]
pub enum SearchStep {
    /// Answer with these results.
    Done(Vec<SearchResult>),
    /// Ask the Everything engine.
    TryEverything,
    /// Ask the Windows index.
    TryWindowsSearch,
    /// Walk the file system; its results are the answer.
    WalkFileSystem,
}

/// An engine's answer settles the search: it succeeded with some results.
pub open spec fn settled(answer: Result<Vec<SearchResult>, String>) -> bool {
    answer matches Ok(v) && v.len() > 0
}

/// The next step of a search for `query` after `event`: a blank query is
/// answered with nothing; otherwise the Everything engine is asked first,
/// then the Windows index, then the file system is walked, and the first
/// engine that answers with results settles the search.
pub fn next_search_step(query: &str, event: SearchEvent) -> (r: SearchStep)
    ensures
        text::trim(query@).len() == 0 ==> (r matches SearchStep::Done(v) && v.len() == 0),
        text::trim(query@).len() > 0 ==> match event {
            SearchEvent::Started => r is TryEverything,
            SearchEvent::EverythingAnswered(a) => if settled(a) {
                r == SearchStep::Done(a->Ok_0)
            } else {
                r is TryWindowsSearch
            },
            SearchEvent::WindowsSearchAnswered(a) => if settled(a) {
                r == SearchStep::Done(a->Ok_0)
            } else {
                r is WalkFileSystem
            },
        },
{
    if query_is_blank(query) {
        return SearchStep::Done(Vec::new());
    }
    match event {
        SearchEvent::Started => SearchStep::TryEverything,
        SearchEvent::EverythingAnswered(a) => match a {
            Ok(v) => if v.len() > 0 {
                SearchStep::Done(v)
            } else {
                SearchStep::TryWindowsSearch
            },
            Err(_) => SearchStep::TryWindowsSearch,
        },
        SearchEvent::WindowsSearchAnswered(a) => match a {
            Ok(v) => if v.len() > 0 {
                SearchStep::Done(v)
            } else {
                SearchStep::WalkFileSystem
            },
            Err(_) => SearchStep::WalkFileSystem,
        },
    }
}

/// The file-system walk stops once it has `FILESYSTEM_MAX_RESULTS` results
/// or has run for 1.8 seconds.
pub fn walk_should_stop(found: usize, elapsed_ms: u64) -> (r: bool)
    ensures
        r == (found >= FILESYSTEM_MAX_RESULTS || elapsed_ms >= 1800),
{
    found >= FILESYSTEM_MAX_RESULTS || elapsed_ms >= 1800
}

} // verus!
