//! The file tools around their file-system calls: the argument checks, the
//! sorted listing of a directory and the texts of their results and failures.

use vstd::prelude::*;
use crate::errors::{error_text, AppError};
use crate::text::{concat2, concat3, concat4, owned};
use crate::tools::{joined, views, join};

verus! {

broadcast use vstd::string::group_string_axioms;

// ---------------------------------------------------------------------------
// Argument checks and messages
// ---------------------------------------------------------------------------

/// Refuses a file tool without a path.
pub fn check_path(path: &str) -> (r: Result<(), AppError>)
    ensures
        r is Ok <==> path@.len() > 0,
        r matches Err(e) ==> e is Tool && error_text(e) == "Missing path"@,
{
    if path.is_empty() {
        Err(AppError::Tool(owned("Missing path")))
    } else {
        Ok(())
    }
}

/// Refuses a move without a source or a destination.
pub fn check_move(from: &str, to: &str) -> (r: Result<(), AppError>)
    ensures
        r is Ok <==> from@.len() > 0 && to@.len() > 0,
        r matches Err(e) ==> e is Tool && error_text(e) == "Missing from or to path"@,
{
    if from.is_empty() || to.is_empty() {
        Err(AppError::Tool(owned("Missing from or to path")))
    } else {
        Ok(())
    }
}

/// The error of a failed file-system call: what failed, on which path, and
/// the system's reason ("Failed to read file 'a.txt': …").
pub fn fs_failure(what: &str, path: &str, reason: &str) -> (r: AppError)
    ensures
        r is Tool,
        error_text(r) == what@ + " '"@ + path@ + "': "@ + reason@,
{
    let a = concat3(what, " '", path);
    AppError::Tool(concat3(a.as_str(), "': ", reason))
}

/// The error of a failed move.
pub fn move_failure(from: &str, to: &str, reason: &str) -> (r: AppError)
    ensures
        r is Tool,
        error_text(r) == "Failed to move '"@ + from@ + "' → '"@ + to@ + "': "@ + reason@,
{
    let a = concat4("Failed to move '", from, "' → '", to);
    AppError::Tool(concat3(a.as_str(), "': ", reason))
}

/// The report of a write.
pub fn written_message(path: &str) -> (r: String)
    ensures
        r@ == "Successfully wrote to '"@ + path@ + "'"@,
{
    concat3("Successfully wrote to '", path, "'")
}

/// The report of a deletion.
pub fn deleted_message(path: &str, is_dir: bool) -> (r: String)
    ensures
        r@ == (if is_dir {
            "Deleted directory '"@
        } else {
            "Deleted file '"@
        }) + path@ + "'"@,
{
    if is_dir {
        concat3("Deleted directory '", path, "'")
    } else {
        concat3("Deleted file '", path, "'")
    }
}

/// The report of a created directory.
pub fn created_message(path: &str) -> (r: String)
    ensures
        r@ == "Created directory '"@ + path@ + "'"@,
{
    concat3("Created directory '", path, "'")
}

/// The report of a move.
pub fn moved_message(from: &str, to: &str) -> (r: String)
    ensures
        r@ == "Moved '"@ + from@ + "' → '"@ + to@ + "'"@,
{
    let a = concat4("Moved '", from, "' → '", to);
    concat2(a.as_str(), "'")
}

// ---------------------------------------------------------------------------
// Directory listing
// ---------------------------------------------------------------------------

/// Lexicographic order on texts, character by character: the order of
/// `str`, since UTF-8 keeps the order of code points.
pub open spec fn lex_le(a: Seq<char>, b: Seq<char>) -> bool
    decreases a.len(),
{
    if a.len() == 0 {
        true
    } else if b.len() == 0 {
        false
    } else if a[0] != b[0] {
        (a[0] as int) < (b[0] as int)
    } else {
        lex_le(a.drop_first(), b.drop_first())
    }
}

/// Any two texts are ordered one way or the other.
pub proof fn lemma_lex_total(a: Seq<char>, b: Seq<char>)
    ensures
        lex_le(a, b) || lex_le(b, a),
    decreases a.len(),
{
    if a.len() > 0 && b.len() > 0 {
        if a[0] == b[0] {
            lemma_lex_total(a.drop_first(), b.drop_first());
        } else {
            assert((a[0] as int) != (b[0] as int));
        }
    }
}

/// The order is transitive.
pub proof fn lemma_lex_trans(a: Seq<char>, b: Seq<char>, c: Seq<char>)
    requires
        lex_le(a, b),
        lex_le(b, c),
    ensures
        lex_le(a, c),
    decreases a.len(),
{
    if a.len() > 0 && b.len() > 0 && c.len() > 0 && a[0] == b[0] && b[0] == c[0] {
        lemma_lex_trans(a.drop_first(), b.drop_first(), c.drop_first());
    }
}

/// Two texts ordered both ways are equal.
pub proof fn lemma_lex_antisym(a: Seq<char>, b: Seq<char>)
    requires
        lex_le(a, b),
        lex_le(b, a),
    ensures
        a == b,
    decreases a.len(),
{
    if a.len() > 0 && b.len() > 0 {
        if a[0] == b[0] {
            lemma_lex_antisym(a.drop_first(), b.drop_first());
            assert(a =~= seq![a[0]] + a.drop_first());
            assert(b =~= seq![b[0]] + b.drop_first());
        }
    } else {
        assert(a =~= b);
    }
}

/// `s` is in ascending order.
pub open spec fn sorted(s: Seq<Seq<char>>) -> bool {
    forall|i: int, j: int| 0 <= i < j < s.len() ==> lex_le(#[trigger] s[i], #[trigger] s[j])
}

/// Whether `a` comes no later than `b`.
fn text_le(a: &String, b: &String) -> (r: bool)
    ensures
        r == lex_le(a@, b@),
{
    let x = crate::text::chars_of(a.as_str());
    let y = crate::text::chars_of(b.as_str());
    let mut i: usize = 0;
    proof {
        assert(x@.skip(0) =~= x@);
        assert(y@.skip(0) =~= y@);
    }
    while i < x.len() && i < y.len() && x[i] == y[i]
        invariant
            i <= x@.len(),
            i <= y@.len(),
            x@ == a@,
            y@ == b@,
            lex_le(x@, y@) == lex_le(x@.skip(i as int), y@.skip(i as int)),
        decreases x@.len() - i,
    {
        proof {
            assert(x@.skip(i as int).drop_first() =~= x@.skip(i + 1));
            assert(y@.skip(i as int).drop_first() =~= y@.skip(i + 1));
        }
        i += 1;
    }
    if i == x.len() {
        proof {
            assert(x@.skip(i as int).len() == 0);
        }
        true
    } else if i == y.len() {
        false
    } else {
        proof {
            assert(x@.skip(i as int)[0] == x@[i as int]);
            assert(y@.skip(i as int)[0] == y@[i as int]);
        }
        x[i] < y[i]
    }
}

/// `names` in ascending order.
pub fn sort_names(names: &Vec<String>) -> (r: Vec<String>)
    ensures
        sorted(views(r@)),
        views(r@).to_multiset() == views(names@).to_multiset(),
        views(r@) == in_order(views(names@)),
{
    broadcast use vstd::seq_lib::group_to_multiset_ensures;

    let mut out: Vec<String> = Vec::new();
    let mut i: usize = 0;
    while i < names.len()
        invariant
            i <= names@.len(),
            sorted(views(out@)),
            views(out@).to_multiset() == views(names@.take(i as int)).to_multiset(),
        decreases names@.len() - i,
    {
        let x = names[i].clone();
        let mut p: usize = 0;
        while p < out.len() && text_le(&out[p], &x)
            invariant
                p <= out@.len(),
                forall|k: int| 0 <= k < p ==> lex_le(#[trigger] views(out@)[k], x@),
            decreases out@.len() - p,
        {
            p += 1;
        }
        let ghost before = views(out@);
        proof {
            if p < out@.len() {
                lemma_lex_total(before[p as int], x@);
                assert forall|k: int| p <= k < before.len() implies lex_le(
                    x@,
                    #[trigger] before[k],
                ) by {
                    if k > p {
                        lemma_lex_trans(x@, before[p as int], before[k]);
                    }
                }
            }
        }
        out.insert(p, x);
        proof {
            let after = views(out@);
            assert(after =~= before.insert(p as int, x@));
            assert forall|a: int, b: int| 0 <= a < b < after.len() implies lex_le(
                #[trigger] after[a],
                #[trigger] after[b],
            ) by {
                if b < p {
                    assert(after[a] == before[a] && after[b] == before[b]);
                } else if b == p {
                    assert(after[a] == before[a]);
                } else if a < p {
                    assert(after[a] == before[a] && after[b] == before[b - 1]);
                    lemma_lex_trans(before[a], x@, before[b - 1]);
                } else if a == p {
                    assert(after[b] == before[b - 1]);
                } else {
                    assert(after[a] == before[a - 1] && after[b] == before[b - 1]);
                }
            }
            assert(views(names@.take(i + 1)) =~= views(names@.take(i as int)).push(x@));
            vstd::seq_lib::to_multiset_insert(before, p as int, x@);
            vstd::seq_lib::to_multiset_build(views(names@.take(i as int)), x@);
        }
        i += 1;
    }
    proof {
        assert(names@.take(names@.len() as int) =~= names@);
        let c = in_order(views(names@));
        assert(sorted(views(out@)) && views(out@).to_multiset() == views(names@).to_multiset());
        law_sorted_order_unique(c, views(out@));
    }
    out
}

/// The report of a directory listing.
pub open spec fn listing_text(path: Seq<char>, sorted_names: Seq<Seq<char>>) -> Seq<char> {
    if sorted_names.len() == 0 {
        "Directory '"@ + path + "' is empty"@
    } else {
        joined(sorted_names, "\n"@)
    }
}

/// The names in ascending order: the one sorted arrangement of them.
pub open spec fn in_order(names: Seq<Seq<char>>) -> Seq<Seq<char>> {
    choose|s: Seq<Seq<char>>| sorted(s) && s.to_multiset() == names.to_multiset()
}

/// The listing of the directory `path` that holds `names`: sorted, one per
/// line, or a note that it is empty.
pub fn listing(path: &str, names: &Vec<String>) -> (r: String)
    ensures
        r@ == listing_text(path@, in_order(views(names@))),
{
    broadcast use vstd::seq_lib::group_to_multiset_ensures;

    let s = sort_names(names);
    proof {
        let w = views(s@);
        assert(sorted(w) && w.to_multiset() == views(names@).to_multiset());
        let c = in_order(views(names@));
        law_sorted_order_unique(c, w);
    }
    if s.len() == 0 {
        assert(views(s@).len() == 0);
        return concat3("Directory '", path, "' is empty");
    }
    join(&s, "\n")
}

/// A listing is determined by the names: two sorted orders of the same names
/// are the same list.
pub proof fn law_sorted_order_unique(a: Seq<Seq<char>>, b: Seq<Seq<char>>)
    requires
        sorted(a),
        sorted(b),
        a.to_multiset() == b.to_multiset(),
    ensures
        a == b,
    decreases a.len(),
{
    broadcast use vstd::seq_lib::group_to_multiset_ensures;

    if a.len() == 0 {
        assert(b.to_multiset().len() == 0);
        assert(b.len() == 0);
        assert(a =~= b);
    } else {
        assert(a.to_multiset().len() == a.len());
        assert(b.to_multiset().len() == b.len());
        assert(b.len() == a.len());
        assert(a.contains(a[0]));
        assert(a.to_multiset().count(a[0]) > 0);
        assert(b.contains(a[0]));
        let j = choose|j: int| 0 <= j < b.len() && b[j] == a[0];
        assert(b.contains(b[0]));
        assert(b.to_multiset().count(b[0]) > 0);
        assert(a.contains(b[0]));
        let i = choose|i: int| 0 <= i < a.len() && a[i] == b[0];
        if i > 0 {
            assert(lex_le(a[0], a[i]));
        } else {
            assert(a[0] == b[0]);
        }
        if j > 0 {
            assert(lex_le(b[0], b[j]));
        } else {
            assert(b[0] == a[0]);
        }
        if a[0] != b[0] {
            lemma_lex_antisym(a[0], b[0]);
        }
        assert(a[0] == b[0]);
        assert(a.remove(0) =~= a.drop_first());
        assert(b.remove(0) =~= b.drop_first());
        assert(a.drop_first().to_multiset() == a.to_multiset().remove(a[0]));
        assert(b.drop_first().to_multiset() == b.to_multiset().remove(b[0]));
        assert forall|x: int, y: int| 0 <= x < y < a.drop_first().len() implies lex_le(
            #[trigger] a.drop_first()[x],
            #[trigger] a.drop_first()[y],
        ) by {
            assert(lex_le(a[x + 1], a[y + 1]));
        }
        assert forall|x: int, y: int| 0 <= x < y < b.drop_first().len() implies lex_le(
            #[trigger] b.drop_first()[x],
            #[trigger] b.drop_first()[y],
        ) by {
            assert(lex_le(b[x + 1], b[y + 1]));
        }
        law_sorted_order_unique(a.drop_first(), b.drop_first());
        assert forall|k: int| 0 <= k < a.len() implies a[k] == b[k] by {
            if k > 0 {
                assert(a[k] == a.drop_first()[k - 1]);
                assert(b[k] == b.drop_first()[k - 1]);
            }
        }
        assert(a =~= b);
    }
}

} // verus!
