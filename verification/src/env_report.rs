//! The `env_info` tool's report and the summaries it makes of the memory table
//! and of the disk-usage command. Reading the environment, the files and
//! running the command are the application's part.

use vstd::prelude::*;
use crate::text::{
    chars_of, concat2, concat4, owned, starts_with, string_of, trim, trim_chars,
    vec_starts_with_str,
};
use crate::tools::{joined, join, lines_of, split_lines, views};

verus! {

broadcast use vstd::string::group_string_axioms;

/// `String::from_utf8_lossy`: the text of `bytes`, invalid sequences replaced
/// by U+FFFD.
pub uninterp spec fn utf8_lossy(bytes: Seq<u8>) -> Seq<char>;

/// `String::from_utf8_lossy` on `bytes`, as an owned string; its text is
/// `utf8_lossy(bytes)`.
#[verifier::external_body]
pub(crate) fn decode_lossy(bytes: &Vec<u8>) -> (r: String)
    ensures
        r@ == utf8_lossy(bytes@),
{
    String::from_utf8_lossy(bytes.as_slice()).into_owned()
}

/// The report of a finished shell command from its raw output.
pub fn shell_output(stdout: &Vec<u8>, stderr: &Vec<u8>, code: Option<i32>, success: bool) -> (r:
    String)
    ensures
        r@ == crate::tools::shell_report(
            utf8_lossy(stdout@),
            utf8_lossy(stderr@),
            match code {
                Some(c) => c as int,
                None => -1,
            },
            success,
        ),
{
    let out = decode_lossy(stdout);
    let err = decode_lossy(stderr);
    crate::tools::combine_output(out.as_str(), err.as_str(), code, success)
}

/// The last line of `ls` that starts with `prefix`, trimmed.
pub open spec fn last_with(ls: Seq<Seq<char>>, prefix: Seq<char>) -> Option<Seq<char>>
    decreases ls.len(),
{
    if ls.len() == 0 {
        None
    } else if starts_with(ls.last(), prefix) {
        Some(trim(ls.last()))
    } else {
        last_with(ls.drop_last(), prefix)
    }
}

/// The memory line of the report, from the text of `/proc/meminfo`.
pub open spec fn memory_line(data: Seq<char>) -> Seq<char> {
    let ls = split_lines(data);
    match (last_with(ls, "MemTotal:"@), last_with(ls, "MemAvailable:"@)) {
        (Some(t), Some(a)) => "memory: "@ + t + ", "@ + a,
        _ => "memory: unavailable"@,
    }
}

/// The memory line of the report for the memory table `data`.
pub fn memory_summary(data: &str) -> (r: String)
    ensures
        r@ == memory_line(data@),
{
    let v = chars_of(data);
    let ls = lines_of(&v);
    let ghost lv = split_lines(v@);
    let mut total: Option<Vec<char>> = None;
    let mut avail: Option<Vec<char>> = None;
    let mut i: usize = 0;
    while i < ls.len()
        invariant
            i <= ls@.len(),
            ls@.len() == lv.len(),
            lv == split_lines(data@),
            forall|k: int| 0 <= k < ls@.len() ==> (#[trigger] ls@[k])@ == lv[k],
            match total {
                Some(t) => last_with(lv.take(i as int), "MemTotal:"@) == Some(t@),
                None => last_with(lv.take(i as int), "MemTotal:"@) is None,
            },
            match avail {
                Some(a) => last_with(lv.take(i as int), "MemAvailable:"@) == Some(a@),
                None => last_with(lv.take(i as int), "MemAvailable:"@) is None,
            },
        decreases ls@.len() - i,
    {
        proof {
            assert(lv.take(i + 1).drop_last() =~= lv.take(i as int));
            assert(lv.take(i + 1).last() == ls@[i as int]@);
        }
        if vec_starts_with_str(&ls[i], "MemTotal:") {
            proof {
                reveal_strlit("MemTotal:");
                reveal_strlit("MemAvailable:");
                assert(!starts_with(ls@[i as int]@, "MemAvailable:"@)) by {
                    assert(starts_with(ls@[i as int]@, "MemTotal:"@));
                    assert(ls@[i as int]@.take(9)[3] == 'T');
                    assert(ls@[i as int]@[3] == 'T');
                    if starts_with(ls@[i as int]@, "MemAvailable:"@) {
                        assert(ls@[i as int]@.take(13)[3] == 'A');
                    }
                }
            }
            total = Some(trim_chars(&ls[i]));
        } else if vec_starts_with_str(&ls[i], "MemAvailable:") {
            avail = Some(trim_chars(&ls[i]));
        }
        i += 1;
    }
    proof {
        assert(lv.take(ls@.len() as int) =~= lv);
    }
    match (total, avail) {
        (Some(t), Some(a)) => {
            let ts = string_of(&t);
            let as_ = string_of(&a);
            concat4("memory: ", ts.as_str(), ", ", as_.as_str())
        },
        _ => owned("memory: unavailable"),
    }
}

/// The disk line of the report, from what the disk-usage command printed:
/// its second line, trimmed.
pub open spec fn disk_line(out: Seq<char>, success: bool) -> Seq<char> {
    let ls = split_lines(out);
    let line = if ls.len() > 1 {
        trim(ls[1])
    } else {
        Seq::empty()
    };
    if !success || line.len() == 0 {
        "disk: unavailable"@
    } else {
        "disk (root): "@ + line
    }
}

/// The disk line of the report for the command's raw output.
pub fn disk_summary(stdout: &Vec<u8>, success: bool) -> (r: String)
    ensures
        r@ == disk_line(utf8_lossy(stdout@), success),
{
    if !success {
        return owned("disk: unavailable");
    }
    let text = decode_lossy(stdout);
    let v = chars_of(text.as_str());
    let ls = lines_of(&v);
    if ls.len() > 1 {
        let line = trim_chars(&ls[1]);
        if line.len() > 0 {
            let l = string_of(&line);
            return concat2("disk (root): ", l.as_str());
        }
    }
    owned("disk: unavailable")
}

/// What `env_info` found out about the machine; an absent fact is left out of
/// the report.
pub struct EnvFacts {
    pub os: String,
    pub arch: String,
    pub family: String,
    pub user: Option<String>,
    pub home: Option<String>,
    pub shell: Option<String>,
    pub cwd: Option<String>,
    pub hostname: Option<String>,
    pub memory: Option<String>,
    pub disk: Option<String>,
}

/// `label` and the fact, if there is one.
pub open spec fn fact_line(label: Seq<char>, v: Option<String>) -> Seq<Seq<char>> {
    match v {
        Some(s) => seq![label + s@],
        None => seq![],
    }
}

/// The lines of the report, in order.
pub open spec fn env_lines(f: EnvFacts) -> Seq<Seq<char>> {
    seq!["os: "@ + f.os@, "arch: "@ + f.arch@, "family: "@ + f.family@] + fact_line(
        "user: "@,
        f.user,
    ) + fact_line("home: "@, f.home) + fact_line("shell: "@, f.shell) + fact_line(
        "cwd: "@,
        f.cwd,
    ) + match f.hostname {
        Some(h) => seq!["hostname: "@ + trim(h@)],
        None => seq![],
    } + match f.memory {
        Some(m) => seq![m@],
        None => seq![],
    } + match f.disk {
        Some(d) => seq![d@],
        None => seq![],
    }
}

/// Appends `label` and the fact to `lines`, if there is one.
fn push_fact(lines: &mut Vec<String>, label: &str, v: &Option<String>)
    ensures
        views(final(lines)@) == views(old(lines)@) + fact_line(label@, *v),
{
    let ghost before = views(lines@);
    match v {
        Some(s) => {
            lines.push(concat2(label, s.as_str()));
            assert(views(lines@) =~= before + fact_line(label@, *v));
        },
        None => {
            assert(views(lines@) =~= before + fact_line(label@, *v));
        },
    }
}

/// The `env_info` report: one fact per line.
pub fn env_report(f: &EnvFacts) -> (r: String)
    ensures
        r@ == joined(env_lines(*f), "\n"@),
{
    let mut lines: Vec<String> = Vec::new();
    lines.push(concat2("os: ", f.os.as_str()));
    lines.push(concat2("arch: ", f.arch.as_str()));
    lines.push(concat2("family: ", f.family.as_str()));
    let ghost head = views(lines@);
    assert(head =~= seq!["os: "@ + f.os@, "arch: "@ + f.arch@, "family: "@ + f.family@]);
    push_fact(&mut lines, "user: ", &f.user);
    push_fact(&mut lines, "home: ", &f.home);
    push_fact(&mut lines, "shell: ", &f.shell);
    push_fact(&mut lines, "cwd: ", &f.cwd);
    let ghost mid = views(lines@);
    match &f.hostname {
        Some(h) => {
            let t = crate::text::trim_str(h.as_str());
            lines.push(concat2("hostname: ", t.as_str()));
        },
        None => {},
    }
    let ghost mid2 = views(lines@);
    assert(mid2 =~= mid + match f.hostname {
        Some(h) => seq!["hostname: "@ + trim(h@)],
        None => seq![],
    });
    match &f.memory {
        Some(m) => {
            lines.push(m.clone());
        },
        None => {},
    }
    let ghost mid3 = views(lines@);
    assert(mid3 =~= mid2 + match f.memory {
        Some(m) => seq![m@],
        None => seq![],
    });
    match &f.disk {
        Some(d) => {
            lines.push(d.clone());
        },
        None => {},
    }
    assert(views(lines@) =~= env_lines(*f));
    join(&lines, "\n")
}

} // verus!
