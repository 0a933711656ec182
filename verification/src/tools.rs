//! What the local tools compute around their input and output: argument
//! checks, matching lines of a file, replacing text, and the reports the
//! model reads. The file system, processes and the network are the
//! application's part.

use vstd::prelude::*;
use crate::errors::{error_text, AppError};
use crate::text::{
    blen, byte_len, chars_of, chars_within, concat2, concat3, concat4, contains, count_within,
    decimal, decimal_string, find_char, lowercase, lowercase_chars, owned, push_char,
    starts_with, string_of, string_of_range, trim, trim_chars, vec_contains, vec_find_char,
    vec_starts_with_str,
};

verus! {

broadcast use vstd::string::group_string_axioms;

// ---------------------------------------------------------------------------
// Lines (`str::lines`)
// ---------------------------------------------------------------------------

/// A line without the `\r` of a `\r\n` ending.
pub open spec fn strip_cr(l: Seq<char>) -> Seq<char> {
    if l.len() > 0 && l.last() == '\r' {
        l.drop_last()
    } else {
        l
    }
}

/// The lines of `s` as `str::lines` yields them: split at `\n`, a `\r`
/// before a `\n` dropped, no empty line after a final `\n`.
pub open spec fn split_lines(s: Seq<char>) -> Seq<Seq<char>>
    decreases s.len(),
{
    if s.len() == 0 {
        seq![]
    } else {
        let i = find_char(s, '\n') as int;
        if i < s.len() {
            proof {
                crate::ui::wrap::lemma_find_char_bound(s, '\n');
            }
            seq![strip_cr(s.take(i))] + split_lines(s.skip(i + 1))
        } else {
            seq![s]
        }
    }
}

/// The lines of `v`.
pub fn lines_of(v: &Vec<char>) -> (r: Vec<Vec<char>>)
    ensures
        r@.len() == split_lines(v@).len(),
        forall|i: int| 0 <= i < r@.len() ==> (#[trigger] r@[i])@ == split_lines(v@)[i],
{
    let mut r: Vec<Vec<char>> = Vec::new();
    let mut p: usize = 0;
    let ghost mut done: Seq<Seq<char>> = seq![];
    assert(v@.skip(0) =~= v@);
    while p < v.len()
        invariant
            p <= v@.len(),
            done + split_lines(v@.skip(p as int)) == split_lines(v@),
            r@.len() == done.len(),
            forall|i: int| 0 <= i < r@.len() ==> (#[trigger] r@[i])@ == done[i],
        decreases v@.len() - p,
    {
        let ghost s = v@.skip(p as int);
        let mut q = p;
        while q < v.len() && v[q] != '\n'
            invariant
                p <= q <= v@.len(),
                s == v@.skip(p as int),
                find_char(s, '\n') == (q - p) + find_char(v@.skip(q as int), '\n'),
            decreases v@.len() - q,
        {
            assert(v@.skip(q as int).drop_first() =~= v@.skip(q + 1));
            q += 1;
        }
        let mut line: Vec<char> = Vec::new();
        let mut k = p;
        while k < q
            invariant
                p <= k <= q <= v@.len(),
                line@ == v@.subrange(p as int, k as int),
            decreases q - k,
        {
            line.push(v[k]);
            k += 1;
            assert(line@ =~= v@.subrange(p as int, k as int));
        }
        assert(s.take(q - p) =~= line@);
        if q < v.len() {
            assert(v@.skip(q as int)[0] == '\n');
            assert(find_char(s, '\n') == q - p);
            if line.len() > 0 && line[line.len() - 1] == '\r' {
                line.pop();
            }
            proof {
                assert(s.skip(q - p + 1) =~= v@.skip(q + 1));
                done = done.push(line@);
            }
            r.push(line);
            p = q + 1;
        } else {
            assert(v@.skip(q as int).len() == 0);
            proof {
                done = done.push(line@);
                assert(v@.skip(v@.len() as int) =~= Seq::<char>::empty());
            }
            r.push(line);
            p = q;
        }
    }
    proof {
        assert(v@.skip(p as int) =~= Seq::<char>::empty());
        assert(done == split_lines(v@));
    }
    r
}

// ---------------------------------------------------------------------------
// Signed decimals
// ---------------------------------------------------------------------------

/// `n` written in decimal, with a leading `-` when negative.
pub open spec fn signed_decimal(n: int) -> Seq<char> {
    if n < 0 {
        "-"@ + decimal((-n) as nat)
    } else {
        decimal(n as nat)
    }
}

/// `n` written in decimal.
pub fn i32_string(n: i32) -> (s: String)
    ensures
        s@ == signed_decimal(n as int),
{
    if n < 0 {
        let m: u32 = if n == i32::MIN {
            2147483648u32
        } else {
            (-n) as u32
        };
        let d = decimal_string(m as usize);
        concat2("-", d.as_str())
    } else {
        decimal_string(n as usize)
    }
}

// ---------------------------------------------------------------------------
// run_shell
// ---------------------------------------------------------------------------

/// What the model reads after a shell command: standard output, then
/// standard error on a new line; the exit code when the command failed, or a
/// note when it printed nothing.
pub open spec fn shell_report(stdout: Seq<char>, stderr: Seq<char>, code: int, success: bool) -> Seq<
    char,
> {
    let combined = if stderr.len() == 0 {
        stdout
    } else if stdout.len() > 0 && stdout.last() != '\n' {
        stdout + "\n"@ + stderr
    } else {
        stdout + stderr
    };
    if combined.len() == 0 {
        "Command finished with exit code "@ + signed_decimal(code) + " (no output)"@
    } else if !success {
        combined + "\n[exit code: "@ + signed_decimal(code) + "]"@
    } else {
        combined
    }
}

/// The report of a finished shell command; `code` is its exit code, if it had one.
pub fn combine_output(stdout: &str, stderr: &str, code: Option<i32>, success: bool) -> (r: String)
    ensures
        r@ == shell_report(
            stdout@,
            stderr@,
            match code {
                Some(c) => c as int,
                None => -1,
            },
            success,
        ),
{
    let code: i32 = match code {
        Some(c) => c,
        None => -1,
    };
    let mut combined = owned(stdout);
    if !stderr.is_empty() {
        let cv = chars_of(combined.as_str());
        if cv.len() > 0 && cv[cv.len() - 1] != '\n' {
            push_char(&mut combined, '\n');
            proof {
                reveal_strlit("\n");
                assert(stdout@.push('\n') =~= stdout@ + "\n"@);
            }
        }
        combined.append(stderr);
    }
    let cs = i32_string(code);
    if combined.as_str().is_empty() {
        concat3("Command finished with exit code ", cs.as_str(), " (no output)")
    } else if !success {
        concat4(combined.as_str(), "\n[exit code: ", cs.as_str(), "]")
    } else {
        combined
    }
}

// ---------------------------------------------------------------------------
// http_get
// ---------------------------------------------------------------------------

/// Bodies longer than this many bytes are cut in the report.
pub const MAX_BODY: usize = 50000;

/// Why a URL is refused, if it is.
pub open spec fn url_problem(url: Seq<char>) -> Option<Seq<char>> {
    if url.len() == 0 {
        Some("Missing url"@)
    } else if !starts_with(url, "http://"@) && !starts_with(url, "https://"@) {
        Some("URL must start with http:// or https://"@)
    } else {
        None
    }
}

/// Refuses an empty URL and one that is not `http://` or `https://`.
pub fn check_url(url: &str) -> (r: Result<(), AppError>)
    ensures
        r is Ok <==> url_problem(url@) is None,
        r matches Err(e) ==> e is Tool && Some(error_text(e)) == url_problem(url@),
{
    let v = chars_of(url);
    if v.len() == 0 {
        return Err(AppError::Tool(owned("Missing url")));
    }
    if !vec_starts_with_str(&v, "http://") && !vec_starts_with_str(&v, "https://") {
        return Err(AppError::Tool(owned("URL must start with http:// or https://")));
    }
    Ok(())
}

/// A response header as shown: its name, `: `, and its value (`?` when it is
/// not visible ASCII).
pub fn header_line(name: &str, value: Option<&str>) -> (r: String)
    ensures
        r@ == name@ + ": "@ + (match value {
            Some(v) => v@,
            None => "?"@,
        }),
{
    match value {
        Some(v) => concat3(name, ": ", v),
        None => concat3(name, ": ", "?"),
    }
}

/// `parts` joined by `sep`.
pub open spec fn joined(parts: Seq<Seq<char>>, sep: Seq<char>) -> Seq<char>
    decreases parts.len(),
{
    if parts.len() == 0 {
        seq![]
    } else if parts.len() == 1 {
        parts[0]
    } else {
        joined(parts.drop_last(), sep) + sep + parts.last()
    }
}

/// The views of a vector of strings.
pub open spec fn views(v: Seq<String>) -> Seq<Seq<char>> {
    v.map_values(|s: String| s@)
}

/// `parts` joined by `sep` (`[String]::join`).
pub fn join(parts: &Vec<String>, sep: &str) -> (r: String)
    ensures
        r@ == joined(views(parts@), sep@),
{
    let mut r = String::new();
    let mut i: usize = 0;
    while i < parts.len()
        invariant
            i <= parts@.len(),
            r@ == joined(views(parts@).take(i as int), sep@),
        decreases parts@.len() - i,
    {
        let ghost before = views(parts@).take(i as int);
        if i > 0 {
            r.append(sep);
        }
        r.append(parts[i].as_str());
        proof {
            let after = views(parts@).take(i + 1);
            assert(after.drop_last() =~= before);
            assert(after.last() == parts@[i as int]@);
            if i == 0 {
                assert(r@ =~= after[0]);
            }
        }
        i += 1;
    }
    assert(views(parts@).take(parts@.len() as int) =~= views(parts@));
    r
}

/// The report of an HTTP response: status, headers and body (a body over
/// `MAX_BODY` bytes is cut to the whole characters within its first
/// `MAX_BODY` bytes).
pub open spec fn http_report_text(status: Seq<char>, headers: Seq<Seq<char>>, body: Seq<char>) -> Seq<
    char,
> {
    let preview = if blen(body) > MAX_BODY {
        body.take(chars_within(body, MAX_BODY as int)) + "\n… body truncated ("@ + decimal(
            blen(body),
        ) + " bytes total)"@
    } else {
        body
    };
    "status: "@ + status + "\nheaders:\n"@ + joined(headers, "\n"@) + "\n\nbody:\n"@ + preview
}

/// The report of an HTTP response; `status` is the status as displayed
/// (`200 OK`), `headers` the header lines.
pub fn http_report(status: &str, headers: &Vec<String>, body: &str) -> (r: String)
    requires
        blen(body@) <= usize::MAX,
    ensures
        r@ == http_report_text(status@, views(headers@), body@),
{
    let bv = chars_of(body);
    let n = byte_len(&bv);
    let preview = if n > MAX_BODY {
        let k = count_within(&bv, MAX_BODY);
        let head = string_of_range(&bv, 0, k);
        proof {
            assert(bv@.subrange(0, k as int) =~= bv@.take(k as int));
        }
        let count = decimal_string(n);
        concat4(head.as_str(), "\n… body truncated (", count.as_str(), " bytes total)")
    } else {
        owned(body)
    };
    let hs = join(headers, "\n");
    let a = concat3("status: ", status, "\nheaders:\n");
    let b = concat3(a.as_str(), hs.as_str(), "\n\nbody:\n");
    concat2(b.as_str(), preview.as_str())
}

// ---------------------------------------------------------------------------
// search_files and grep
// ---------------------------------------------------------------------------

/// At most this many files are listed.
pub const MAX_RESULTS: usize = 200;

/// At most this many matching lines are listed.
pub const MAX_MATCHES: usize = 500;

/// Files larger than this many bytes are skipped by grep.
pub const MAX_GREP_FILE_SIZE: u64 = 2000000;

/// How deep grep walks below a directory.
pub const GREP_DEPTH: usize = 12;

/// Whether grep reads a file of `size` bytes (larger files are skipped).
pub fn grep_reads_file(size: u64) -> (r: bool)
    ensures
        r == (size <= MAX_GREP_FILE_SIZE),
{
    size <= MAX_GREP_FILE_SIZE
}

/// Why a search or grep is refused (`place` is its root or path).
pub open spec fn missing_arg(place: Seq<char>, pattern: Seq<char>, place_msg: Seq<char>) -> Option<
    Seq<char>,
> {
    if place.len() == 0 {
        Some(place_msg)
    } else if pattern.len() == 0 {
        Some("Missing pattern"@)
    } else {
        None
    }
}

/// Refuses a search without a root or a pattern.
pub fn check_search(root: &str, pattern: &str) -> (r: Result<(), AppError>)
    ensures
        r is Ok <==> missing_arg(root@, pattern@, "Missing root path"@) is None,
        r matches Err(e) ==> e is Tool && Some(error_text(e)) == missing_arg(
            root@,
            pattern@,
            "Missing root path"@,
        ),
{
    if root.is_empty() {
        return Err(AppError::Tool(owned("Missing root path")));
    }
    if pattern.is_empty() {
        return Err(AppError::Tool(owned("Missing pattern")));
    }
    Ok(())
}

/// Refuses a grep without a path or a pattern.
pub fn check_grep(path: &str, pattern: &str) -> (r: Result<(), AppError>)
    ensures
        r is Ok <==> missing_arg(path@, pattern@, "Missing path"@) is None,
        r matches Err(e) ==> e is Tool && Some(error_text(e)) == missing_arg(
            path@,
            pattern@,
            "Missing path"@,
        ),
{
    if path.is_empty() {
        return Err(AppError::Tool(owned("Missing path")));
    }
    if pattern.is_empty() {
        return Err(AppError::Tool(owned("Missing pattern")));
    }
    Ok(())
}

/// The search depth: the requested one, between 1 and 32.
pub fn search_depth(max_depth: usize) -> (r: usize)
    ensures
        r == (if max_depth < 1 {
            1
        } else if max_depth > 32 {
            32
        } else {
            max_depth
        }),
{
    if max_depth < 1 {
        1
    } else if max_depth > 32 {
        32
    } else {
        max_depth
    }
}

/// The report of a search: the paths found, one per line, with a note when
/// the list was capped.
pub open spec fn search_report(found: Seq<Seq<char>>, pattern: Seq<char>, root: Seq<char>) -> Seq<
    char,
> {
    if found.len() == 0 {
        "No files matching '"@ + pattern + "' under '"@ + root + "'"@
    } else if found.len() >= MAX_RESULTS {
        joined(found, "\n"@) + "\n… capped at 200 results"@
    } else {
        joined(found, "\n"@)
    }
}

/// The report of a search that found `found`.
pub fn search_summary(found: &Vec<String>, pattern: &str, root: &str) -> (r: String)
    ensures
        r@ == search_report(views(found@), pattern@, root@),
{
    if found.len() == 0 {
        let a = concat3("No files matching '", pattern, "' under '");
        return concat3(a.as_str(), root, "'");
    }
    let j = join(found, "\n");
    if found.len() >= MAX_RESULTS {
        concat2(j.as_str(), "\n… capped at 200 results")
    } else {
        j
    }
}

/// The report of a grep: the matching lines, with a note when capped.
pub open spec fn grep_report(found: Seq<Seq<char>>, pattern: Seq<char>, path: Seq<char>) -> Seq<
    char,
> {
    if found.len() == 0 {
        "No matches for '"@ + pattern + "' in '"@ + path + "'"@
    } else if found.len() >= MAX_MATCHES {
        joined(found, "\n"@) + "\n… capped at 500 matches"@
    } else {
        joined(found, "\n"@)
    }
}

/// The report of a grep that found `found`.
pub fn grep_summary(found: &Vec<String>, pattern: &str, path: &str) -> (r: String)
    ensures
        r@ == grep_report(views(found@), pattern@, path@),
{
    if found.len() == 0 {
        let a = concat3("No matches for '", pattern, "' in '");
        return concat3(a.as_str(), path, "'");
    }
    let j = join(found, "\n");
    if found.len() >= MAX_MATCHES {
        concat2(j.as_str(), "\n… capped at 500 matches")
    } else {
        j
    }
}

/// The text a line is searched in (its lowercase when case is ignored).
pub open spec fn haystack(line: Seq<char>, ignore_case: bool) -> Seq<char> {
    if ignore_case {
        lowercase(line)
    } else {
        line
    }
}

/// A match as listed: `path:number:line`.
pub open spec fn match_line(path: Seq<char>, number: nat, line: Seq<char>) -> Seq<char> {
    path + ":"@ + decimal(number) + ":"@ + line
}

/// The matches of lines `i..` of `lines`, stopping once the list holds
/// `MAX_MATCHES` lines (`room` is how many more fit; at least one is taken).
pub open spec fn grep_from(
    path: Seq<char>,
    lines: Seq<Seq<char>>,
    i: int,
    needle: Seq<char>,
    ignore_case: bool,
    room: int,
) -> Seq<Seq<char>>
    decreases lines.len() - i,
{
    if i < 0 || i >= lines.len() {
        seq![]
    } else if contains(haystack(lines[i], ignore_case), needle) {
        if room - 1 <= 0 {
            seq![match_line(path, (i + 1) as nat, lines[i])]
        } else {
            seq![match_line(path, (i + 1) as nat, lines[i])] + grep_from(
                path,
                lines,
                i + 1,
                needle,
                ignore_case,
                room - 1,
            )
        }
    } else {
        grep_from(path, lines, i + 1, needle, ignore_case, room)
    }
}

/// The lines of `text` (the file at `path`, as displayed) that contain
/// `pattern` (in any case when `ignore_case`), appended to `matches` until it
/// holds `MAX_MATCHES` lines.
pub fn grep_text(
    path: &str,
    text: &str,
    pattern: &str,
    ignore_case: bool,
    matches: &mut Vec<String>,
)
    requires
        split_lines(text@).len() < usize::MAX,
    ensures
        views(final(matches)@) == views(old(matches)@) + grep_from(
            path@,
            split_lines(text@),
            0,
            if ignore_case {
                lowercase(pattern@)
            } else {
                pattern@
            },
            ignore_case,
            MAX_MATCHES - old(matches)@.len(),
        ),
{
    let pv = chars_of(pattern);
    let needle = if ignore_case {
        lowercase_chars(&pv)
    } else {
        pv
    };
    let tv = chars_of(text);
    let lines = lines_of(&tv);
    let ghost ls = split_lines(text@);
    let ghost nd = needle@;
    let ghost room0 = MAX_MATCHES - old(matches)@.len();
    let mut i: usize = 0;
    let ghost mut room: int = room0;
    assert(views(matches@) =~= views(old(matches)@) + Seq::<Seq<char>>::empty());
    while i < lines.len()
        invariant_except_break
            i <= lines@.len() == ls.len(),
            views(old(matches)@) + grep_from(path@, ls, 0, nd, ignore_case, room0) == views(
                matches@,
            ) + grep_from(path@, ls, i as int, nd, ignore_case, room),
            room == MAX_MATCHES - matches@.len(),
        invariant
            lines@.len() == ls.len(),
            ls.len() < usize::MAX,
            forall|k: int| 0 <= k < lines@.len() ==> (#[trigger] lines@[k])@ == ls[k],
            nd == needle@,
        ensures
            views(old(matches)@) + grep_from(path@, ls, 0, nd, ignore_case, room0) == views(
                matches@,
            ),
        decreases lines@.len() - i,
    {
        let line = &lines[i];
        let hay = if ignore_case {
            lowercase_chars(line)
        } else {
            line.clone()
        };
        if vec_contains(&hay, &needle) {
            let num = decimal_string(i + 1);
            let ls_ = string_of(line);
            let a = concat4(path, ":", num.as_str(), ":");
            let m = concat2(a.as_str(), ls_.as_str());
            let ghost before = views(matches@);
            matches.push(m);
            proof {
                assert(views(matches@) =~= before.push(m@));
                assert(m@ == match_line(path@, (i + 1) as nat, ls[i as int]));
            }
            if matches.len() >= MAX_MATCHES {
                proof {
                    assert(room - 1 <= 0);
                    assert(views(matches@) =~= before + seq![m@]);
                }
                break;
            }
            proof {
                assert(views(matches@) + grep_from(path@, ls, i + 1, nd, ignore_case, room - 1)
                    =~= before + (seq![m@] + grep_from(
                    path@,
                    ls,
                    i + 1,
                    nd,
                    ignore_case,
                    room - 1,
                )));
                room = room - 1;
            }
        }
        i += 1;
    }
    proof {
        if i >= lines@.len() {
            assert(grep_from(path@, ls, i as int, nd, ignore_case, room) =~= Seq::<
                Seq<char>,
            >::empty());
            assert(views(matches@) + Seq::<Seq<char>>::empty() =~= views(matches@));
        }
    }
}

// ---------------------------------------------------------------------------
// edit_file
// ---------------------------------------------------------------------------

/// Index of the leftmost occurrence of `p` in `s`, or -1.
pub open spec fn first_occ(s: Seq<char>, p: Seq<char>) -> int
    decreases s.len(),
{
    if p.len() > s.len() {
        -1
    } else if s.take(p.len() as int) == p {
        0
    } else if s.len() == 0 {
        -1
    } else {
        let r = first_occ(s.drop_first(), p);
        if r < 0 {
            -1
        } else {
            r + 1
        }
    }
}

/// `s` with every (leftmost, non-overlapping) occurrence of the non-empty `p`
/// replaced by `r` (`str::replace`).
pub open spec fn replaced_all(s: Seq<char>, p: Seq<char>, r: Seq<char>) -> Seq<char>
    decreases s.len(),
{
    let i = first_occ(s, p);
    if i < 0 || p.len() == 0 {
        s
    } else {
        proof {
            lemma_first_occ(s, p);
        }
        s.take(i) + r + replaced_all(s.skip(i + p.len()), p, r)
    }
}

/// `s` with the first occurrence of `p` replaced by `r` (`str::replacen(p, r, 1)`).
pub open spec fn replaced_first(s: Seq<char>, p: Seq<char>, r: Seq<char>) -> Seq<char> {
    let i = first_occ(s, p);
    if i < 0 {
        s
    } else {
        s.take(i) + r + s.skip(i + p.len())
    }
}

/// The number of non-overlapping occurrences of the non-empty `p` in `s`
/// (`str::matches(p).count()`).
pub open spec fn occurrences(s: Seq<char>, p: Seq<char>) -> nat
    decreases s.len(),
{
    let i = first_occ(s, p);
    if i < 0 || p.len() == 0 {
        0
    } else {
        proof {
            lemma_first_occ(s, p);
        }
        1 + occurrences(s.skip(i + p.len()), p)
    }
}

/// The leftmost occurrence is an occurrence, and no earlier position is one.
pub proof fn lemma_first_occ(s: Seq<char>, p: Seq<char>)
    ensures
        -1 <= first_occ(s, p),
        first_occ(s, p) >= 0 ==> crate::text::occurs_at(s, p, first_occ(s, p)),
        first_occ(s, p) >= 0 ==> first_occ(s, p) + p.len() <= s.len(),
        forall|k: int|
            0 <= k && (first_occ(s, p) < 0 || k < first_occ(s, p)) ==> !crate::text::occurs_at(
                s,
                p,
                k,
            ),
    decreases s.len(),
{
    if p.len() > s.len() {
    } else if s.take(p.len() as int) == p {
        assert(s.subrange(0, p.len() as int) =~= s.take(p.len() as int));
    } else if s.len() == 0 {
    } else {
        lemma_first_occ(s.drop_first(), p);
        let r = first_occ(s.drop_first(), p);
        assert forall|k: int|
            0 <= k && (first_occ(s, p) < 0 || k < first_occ(s, p)) implies !crate::text::occurs_at(
            s,
            p,
            k,
        ) by {
            if k == 0 {
                assert(s.subrange(0, p.len() as int) =~= s.take(p.len() as int));
            } else if crate::text::occurs_at(s, p, k) {
                assert(s.drop_first().subrange(k - 1, k - 1 + p.len()) =~= s.subrange(
                    k,
                    k + p.len(),
                ));
                assert(crate::text::occurs_at(s.drop_first(), p, k - 1));
            }
        }
        if r >= 0 {
            assert(s.drop_first().subrange(r, r + p.len()) =~= s.subrange(r + 1, r + 1 + p.len()));
        }
    }
}

/// The first occurrence determines `first_occ`.
proof fn lemma_first_occ_is(s: Seq<char>, p: Seq<char>, j: int)
    requires
        j == -1 ==> forall|k: int| 0 <= k ==> !crate::text::occurs_at(s, p, k),
        j >= 0 ==> crate::text::occurs_at(s, p, j) && forall|k: int|
            0 <= k < j ==> !crate::text::occurs_at(s, p, k),
        j >= -1,
    ensures
        first_occ(s, p) == j,
{
    lemma_first_occ(s, p);
    let f = first_occ(s, p);
    if f >= 0 && j >= 0 {
        if f < j {
        } else if j < f {
        }
    }
}

/// The leftmost occurrence of `p` in `v` at or after `from`.
fn find_occ_from(v: &Vec<char>, p: &Vec<char>, from: usize) -> (r: Option<usize>)
    requires
        from <= v@.len(),
        p@.len() > 0,
    ensures
        r is None ==> first_occ(v@.skip(from as int), p@) == -1,
        r matches Some(i) ==> from <= i && i + p@.len() <= v@.len() && first_occ(
            v@.skip(from as int),
            p@,
        ) == i - from,
{
    let ghost s = v@.skip(from as int);
    if p.len() > v.len() - from {
        proof {
            lemma_first_occ_is(s, p@, -1);
        }
        return None;
    }
    let vl: usize = v.len();
    let last = vl - p.len();
    let mut at = from;
    while at <= last
        invariant
            vl == v@.len(),
            from <= at <= last + 1,
            last + p@.len() == v@.len(),
            p@.len() > 0,
            s == v@.skip(from as int),
            forall|k: int| from <= k < at ==> !crate::text::occurs_at(v@, p@, k),
        decreases last + 1 - at,
    {
        let mut i: usize = 0;
        let mut ok = true;
        while i < p.len()
            invariant
                vl == v@.len(),
                at <= last,
                at + p@.len() <= v@.len(),
                i <= p@.len(),
                ok ==> forall|k: int| 0 <= k < i ==> v@[at + k] == p@[k],
                !ok ==> !crate::text::occurs_at(v@, p@, at as int),
            decreases p@.len() - i,
        {
            if v[at + i] != p[i] {
                ok = false;
                assert(v@.subrange(at as int, at + p@.len())[i as int] != p@[i as int]);
            }
            i += 1;
        }
        if ok {
            assert(v@.subrange(at as int, at + p@.len()) =~= p@);
            proof {
                assert forall|k: int| 0 <= k < at - from implies !crate::text::occurs_at(
                    s,
                    p@,
                    k,
                ) by {
                    assert(!crate::text::occurs_at(v@, p@, k + from));
                    assert(s.subrange(k, k + p@.len()) =~= v@.subrange(k + from, k + from + p@.len()));
                }
                assert(s.subrange(at - from, at - from + p@.len()) =~= v@.subrange(
                    at as int,
                    at + p@.len(),
                ));
                lemma_first_occ_is(s, p@, at - from);
            }
            return Some(at);
        }
        at += 1;
    }
    proof {
        assert forall|k: int| 0 <= k implies !crate::text::occurs_at(s, p@, k) by {
            if k + p@.len() <= s.len() {
                assert(!crate::text::occurs_at(v@, p@, k + from));
                assert(s.subrange(k, k + p@.len()) =~= v@.subrange(k + from, k + from + p@.len()));
            }
        }
        lemma_first_occ_is(s, p@, -1);
    }
    None
}

/// Refuses an edit without a path or without the text to find.
pub fn check_edit(path: &str, old_text: &str) -> (r: Result<(), AppError>)
    ensures
        r is Ok <==> path@.len() > 0 && old_text@.len() > 0,
        path@.len() == 0 ==> (r matches Err(AppError::Tool(m)) && m@ == "Missing path"@),
        path@.len() > 0 && old_text@.len() == 0 ==> (r matches Err(AppError::Tool(m)) && m@
            == "Missing old_text"@),
{
    if path.is_empty() {
        return Err(AppError::Tool(owned("Missing path")));
    }
    if old_text.is_empty() {
        return Err(AppError::Tool(owned("Missing old_text")));
    }
    Ok(())
}

/// The edited content of the file at `path` and the number of replacements:
/// the first occurrence of `old_text` replaced, or all of them when
/// `replace_all`; refused when `old_text` does not occur.
pub fn edit_content(
    path: &str,
    content: &str,
    old_text: &str,
    new_text: &str,
    replace_all: bool,
) -> (r: Result<(String, usize), AppError>)
    requires
        old_text@.len() > 0,
    ensures
        !contains(content@, old_text@) ==> (r matches Err(AppError::Tool(m)) && m@
            == "old_text not found in '"@ + path@ + "'"@),
        contains(content@, old_text@) ==> (r matches Ok((t, n)) && t@ == (if replace_all {
            replaced_all(content@, old_text@, new_text@)
        } else {
            replaced_first(content@, old_text@, new_text@)
        }) && n == (if replace_all {
            occurrences(content@, old_text@)
        } else {
            1
        })),
{
    let v = chars_of(content);
    let p = chars_of(old_text);
    let nv = chars_of(new_text);
    if !crate::text::vec_contains(&v, &p) {
        return Err(AppError::Tool(concat3("old_text not found in '", path, "'")));
    }
    proof {
        lemma_first_occ(v@, p@);
        assert(v@.skip(0) =~= v@);
    }
    let vl: usize = v.len();
    let mut out: Vec<char> = Vec::new();
    let mut pos: usize = 0;
    let mut count: usize = 0;
    let ghost total_r = replaced_all(v@, p@, nv@);
    let ghost total_n = occurrences(v@, p@);
    loop
        invariant_except_break
            pos <= v@.len(),
            out@ + replaced_all(v@.skip(pos as int), p@, nv@) == total_r,
            count + occurrences(v@.skip(pos as int), p@) == total_n,
            replace_all || count == 0,
            count == 0 ==> pos == 0 && out@ == Seq::<char>::empty(),
        invariant
            vl == v@.len(),
            p@.len() > 0,
            p@ == old_text@,
            nv@ == new_text@,
            v@ == content@,
            total_r == replaced_all(v@, p@, nv@),
            total_n == occurrences(v@, p@),
            count <= pos,
            pos <= v@.len(),
        ensures
            replace_all ==> out@ == total_r && count == total_n,
            !replace_all ==> out@ == replaced_first(v@, p@, nv@),
        decreases v@.len() - pos,
    {
        let ghost s = v@.skip(pos as int);
        match find_occ_from(&v, &p, pos) {
            None => {
                let mut k = pos;
                let ghost out0 = out@;
                while k < v.len()
                    invariant
                        pos <= k <= v@.len(),
                        out@ == out0 + v@.subrange(pos as int, k as int),
                    decreases v@.len() - k,
                {
                    out.push(v[k]);
                    k += 1;
                    assert(out@ =~= out0 + v@.subrange(pos as int, k as int));
                }
                proof {
                    assert(v@.subrange(pos as int, v@.len() as int) =~= s);
                }
                break;
            },
            Some(i) => {
                proof {
                    lemma_first_occ(s, p@);
                }
                let mut k = pos;
                let ghost out0 = out@;
                while k < i
                    invariant
                        pos <= k <= i,
                        i + p@.len() <= v@.len(),
                        out@ == out0 + v@.subrange(pos as int, k as int),
                    decreases i - k,
                {
                    out.push(v[k]);
                    k += 1;
                    assert(out@ =~= out0 + v@.subrange(pos as int, k as int));
                }
                let mut j: usize = 0;
                let ghost out1 = out@;
                while j < nv.len()
                    invariant
                        j <= nv@.len(),
                        out@ == out1 + nv@.take(j as int),
                    decreases nv@.len() - j,
                {
                    out.push(nv[j]);
                    j += 1;
                    assert(out@ =~= out1 + nv@.take(j as int));
                }
                proof {
                    lemma_first_occ(s, p@);
                    assert(nv@.take(nv@.len() as int) =~= nv@);
                    assert(v@.subrange(pos as int, i as int) =~= s.take(i - pos));
                    assert(s.skip(i - pos + p@.len()) =~= v@.skip(i + p@.len()));
                }
                let ghost pos0 = pos;
                pos = i + p.len();
                count = count + 1;
                if !replace_all {
                    let mut k2 = pos;
                    let ghost out2 = out@;
                    while k2 < v.len()
                        invariant
                            pos <= k2 <= v@.len(),
                            out@ == out2 + v@.subrange(pos as int, k2 as int),
                        decreases v@.len() - k2,
                    {
                        out.push(v[k2]);
                        k2 += 1;
                        assert(out@ =~= out2 + v@.subrange(pos as int, k2 as int));
                    }
                    proof {
                        assert(v@.subrange(pos as int, v@.len() as int) =~= v@.skip(pos as int));
                        assert(v@.skip(0) =~= v@);
                        assert(pos0 == 0);
                        assert(s =~= v@);
                        assert(v@.subrange(0, i as int) =~= v@.take(i as int));
                        assert(out@ =~= replaced_first(v@, p@, nv@));
                    }
                    break;
                }
            },
        }
    }
    let n = if replace_all {
        count
    } else {
        1
    };
    Ok((string_of(&out), n))
}

/// The report of an edit.
pub fn edit_message(path: &str, count: usize) -> (r: String)
    ensures
        r@ == "Edited '"@ + path@ + "' ("@ + decimal(count as nat) + " replacement(s))"@,
{
    let c = decimal_string(count);
    let head = concat4("Edited '", path, "' (", c.as_str());
    concat2(head.as_str(), " replacement(s))")
}

} // verus!
