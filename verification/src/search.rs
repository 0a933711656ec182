//! File search by name: the glob the user gave, compiled by the `glob` crate,
//! picks the entries of a directory walk and the first of them are reported.
//! The walk itself is the application's part.

use vstd::prelude::*;
use crate::errors::{error_text, AppError};
use crate::text::{concat2, concat4, owned};
use crate::tools::{check_search, missing_arg, search_depth, views, MAX_RESULTS};

verus! {

broadcast use vstd::string::group_string_axioms;

#[verifier::external_type_specification]
#[verifier::external_body]
pub struct ExPattern(glob::Pattern);

/// The `Display` text of the error that `glob::Pattern::new` gives for
/// `pattern` ("Pattern syntax error near position …: …"), or `None` where it
/// accepts the pattern.
pub uninterp spec fn glob_rejection(pattern: Seq<char>) -> Option<Seq<char>>;

/// Whether `glob::Pattern::new` accepts `pattern`.
pub open spec fn glob_accepts(pattern: Seq<char>) -> bool {
    glob_rejection(pattern) is None
}

/// Whether the glob compiled from `pattern` matches `name`
/// (`glob::Pattern::matches`).
pub uninterp spec fn glob_matches(pattern: Seq<char>, name: Seq<char>) -> bool;

/// `glob::Pattern::new`, its error turned into its `Display` text: succeeds
/// exactly where `glob_rejection` is `None`, and fails with that text. What
/// the compiled value holds is not stated; `Glob` keeps the text it came from
/// beside it.
#[verifier::external_body]
fn compile_pattern(pattern: &str) -> (r: Result<glob::Pattern, String>)
    ensures
        r is Ok <==> glob_rejection(pattern@) is None,
        r matches Err(m) ==> glob_rejection(pattern@) == Some(m@),
{
    glob::Pattern::new(pattern).map_err(|e| e.to_string())
}

/// A compiled glob and the pattern it was compiled from. Values are made only
/// by `Glob::compile`, which compiles `source` into `compiled`.
pub struct Glob {
    compiled: glob::Pattern,
    source: String,
}

/// `glob::Pattern::matches` on the glob compiled from `g.source`: whether it
/// matches `name`, as `glob_matches` names it.
#[verifier::external_body]
fn glob_is_match(g: &Glob, name: &str) -> (b: bool)
    ensures
        b == glob_matches(g.source@, name@),
{
    g.compiled.matches(name)
}

/// The error a search with the invalid glob `pattern` is refused with.
pub open spec fn rejection_text(pattern: Seq<char>) -> Option<Seq<char>> {
    match glob_rejection(pattern) {
        Some(m) => Some("Invalid glob pattern '"@ + pattern + "': "@ + m),
        None => None,
    }
}

impl Glob {
    /// The pattern the glob was compiled from.
    pub closed spec fn pattern(&self) -> Seq<char> {
        self.source@
    }

    /// Compiles `pattern`; an invalid one is refused with the text of the
    /// parser's error.
    pub fn compile(pattern: &str) -> (r: Result<Glob, AppError>)
        ensures
            r is Ok <==> glob_accepts(pattern@),
            r matches Ok(g) ==> g.pattern() == pattern@,
            r matches Err(e) ==> e is Tool && Some(error_text(e)) == rejection_text(pattern@),
    {
        match compile_pattern(pattern) {
            Ok(compiled) => Ok(Glob { compiled, source: owned(pattern) }),
            Err(m) => {
                let t = concat4("Invalid glob pattern '", pattern, "': ", m.as_str());
                assert(t@ == "Invalid glob pattern '"@ + pattern@ + "': "@ + m@);
                Err(AppError::Tool(t))
            },
        }
    }

    /// Whether the glob matches `name`.
    pub fn matches(&self, name: &str) -> (b: bool)
        ensures
            b == glob_matches(self.pattern(), name@),
    {
        glob_is_match(self, name)
    }
}

/// An entry of the directory walk: its displayed path and its file name
/// (empty where the name is not valid UTF-8).
pub struct WalkEntry {
    pub path: String,
    pub name: String,
}

/// The paths of the entries whose name the glob of `pattern` matches, in
/// walk order.
pub open spec fn matching_paths(pattern: Seq<char>, es: Seq<WalkEntry>) -> Seq<Seq<char>>
    decreases es.len(),
{
    if es.len() == 0 {
        seq![]
    } else {
        let e = es.last();
        let rest = matching_paths(pattern, es.drop_last());
        if glob_matches(pattern, e.name@) {
            rest.push(e.path@)
        } else {
            rest
        }
    }
}

/// `s` cut to its first `MAX_RESULTS` items.
pub open spec fn capped(s: Seq<Seq<char>>) -> Seq<Seq<char>> {
    if s.len() <= MAX_RESULTS {
        s
    } else {
        s.take(MAX_RESULTS as int)
    }
}

/// Checks the arguments of a search and compiles its glob; also gives the
/// walk depth to use.
pub fn prepare_search(root: &str, pattern: &str, max_depth: usize) -> (r: Result<
    (Glob, usize),
    AppError,
>)
    ensures
        r is Ok <==> missing_arg(root@, pattern@, "Missing root path"@) is None && glob_accepts(
            pattern@,
        ),
        missing_arg(root@, pattern@, "Missing root path"@) is Some ==> (r matches Err(e) && e is Tool
            && Some(error_text(e)) == missing_arg(root@, pattern@, "Missing root path"@)),
        missing_arg(root@, pattern@, "Missing root path"@) is None && !glob_accepts(pattern@) ==> (
        r matches Err(e) && e is Tool && Some(error_text(e)) == rejection_text(pattern@)),
        r matches Ok((g, d)) ==> g.pattern() == pattern@ && 1 <= d <= 32 && (1 <= max_depth <= 32
            ==> d == max_depth),
{
    match check_search(root, pattern) {
        Err(e) => Err(e),
        Ok(()) => match Glob::compile(pattern) {
            Err(e) => Err(e),
            Ok(g) => Ok((g, search_depth(max_depth))),
        },
    }
}

/// The first `MAX_RESULTS` paths of the walk whose file name the glob
/// matches.
pub fn search_filter(g: &Glob, entries: &Vec<WalkEntry>) -> (r: Vec<String>)
    ensures
        views(r@) == capped(matching_paths(g.pattern(), entries@)),
{
    let mut out: Vec<String> = Vec::new();
    let mut i: usize = 0;
    while i < entries.len()
        invariant
            i <= entries@.len(),
            views(out@) == capped(matching_paths(g.pattern(), entries@.take(i as int))),
            out@.len() <= MAX_RESULTS,
        decreases entries@.len() - i,
    {
        let e = &entries[i];
        let ghost before = matching_paths(g.pattern(), entries@.take(i as int));
        proof {
            assert(entries@.take(i + 1).drop_last() =~= entries@.take(i as int));
            assert(entries@.take(i + 1).last() == entries@[i as int]);
        }
        if g.matches(e.name.as_str()) {
            if out.len() < MAX_RESULTS {
                let p = e.path.clone();
                let ghost old_out = out@;
                out.push(p);
                proof {
                    assert(views(out@) =~= views(old_out).push(p@));
                    assert(views(out@) =~= before.push(e.path@));
                }
            } else {
                proof {
                    assert(before.push(e.path@).take(MAX_RESULTS as int) =~= before.take(
                        MAX_RESULTS as int,
                    ));
                }
            }
        }
        i += 1;
    }
    proof {
        assert(entries@.take(entries@.len() as int) =~= entries@);
    }
    out
}

} // verus!
