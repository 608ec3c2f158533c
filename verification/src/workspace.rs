//! The job workspace: uniquely named, job-scoped directories, the paths of
//! the files materialized inside one, and resolution of the entry file.
//! The lemmas here carry the isolation argument: distinct jobs get distinct
//! directory names, and files under distinct directories never share a path.

use vstd::prelude::*;
use crate::models::ExecuteRequestFiles;
use crate::numerals::{
    dec_digits,
    dec_str,
    is_digit_char,
    lemma_dec_digits_all_digits,
    lemma_dec_digits_injective,
};
use vstd::string::{StrSliceExecFns, StringExecFns};

verus! {

/// The directory name for the job started at `millis` with per-process job
/// counter `seq_no`: time alone is not unique under bursts, so the counter is
/// part of the name.
pub open spec fn ws_name_seq(millis: nat, seq_no: nat) -> Seq<char> {
    "task-"@ + dec_digits(millis) + seq!['-'] + dec_digits(seq_no)
}

/// The path of one submitted file inside a workspace directory.
pub open spec fn file_path_seq(ws: Seq<char>, name: Seq<char>) -> Seq<char> {
    ws + seq!['/'] + name
}

/// Whether `s` avoids the character `c` entirely.
pub open spec fn avoids_char(s: Seq<char>, c: char) -> bool {
    forall|i: int| 0 <= i < s.len() ==> s[i] != c
}

/// Splitting around a separator that neither left part contains is
/// unambiguous: equal concatenations force equal parts.
pub proof fn lemma_sep_concat_injective(
    a1: Seq<char>,
    b1: Seq<char>,
    a2: Seq<char>,
    b2: Seq<char>,
    sep: char,
)
    requires
        avoids_char(a1, sep),
        avoids_char(a2, sep),
        a1 + seq![sep] + b1 == a2 + seq![sep] + b2,
    ensures
        a1 == a2,
        b1 == b2,
{
    let s = a1 + seq![sep] + b1;
    if a1.len() < a2.len() {
        assert(s[a1.len() as int] == sep);
        assert(s[a1.len() as int] == a2[a1.len() as int]);
        assert(false);
    }
    if a2.len() < a1.len() {
        assert(s[a2.len() as int] == sep);
        assert(s[a2.len() as int] == a1[a2.len() as int]);
        assert(false);
    }
    assert(a1 =~= s.subrange(0, a1.len() as int));
    assert(a2 =~= s.subrange(0, a1.len() as int));
    assert(b1 =~= s.subrange(a1.len() as int + 1, s.len() as int));
    assert(b2 =~= s.subrange(a1.len() as int + 1, s.len() as int));
}

/// A decimal numeral never contains the given non-digit character.
proof fn lemma_dec_digits_avoid(n: nat, c: char)
    requires
        !is_digit_char(c),
    ensures
        avoids_char(dec_digits(n), c),
{
    lemma_dec_digits_all_digits(n);
}

/// Workspace names are unique per (time, counter) pair: two jobs that differ
/// in either component get different directories.
pub proof fn lemma_ws_name_injective(m1: nat, s1: nat, m2: nat, s2: nat)
    requires
        ws_name_seq(m1, s1) == ws_name_seq(m2, s2),
    ensures
        m1 == m2,
        s1 == s2,
{
    let p = "task-"@;
    let t1 = dec_digits(m1) + seq!['-'] + dec_digits(s1);
    let t2 = dec_digits(m2) + seq!['-'] + dec_digits(s2);
    assert((p + t1).subrange(p.len() as int, (p + t1).len() as int) =~= t1);
    assert((p + t2).subrange(p.len() as int, (p + t2).len() as int) =~= t2);
    assert(p + t1 =~= ws_name_seq(m1, s1));
    assert(p + t2 =~= ws_name_seq(m2, s2));
    lemma_dec_digits_avoid(m1, '-');
    lemma_dec_digits_avoid(m2, '-');
    lemma_sep_concat_injective(dec_digits(m1), dec_digits(s1), dec_digits(m2), dec_digits(s2), '-');
    lemma_dec_digits_injective(m1, m2);
    lemma_dec_digits_injective(s1, s2);
}

/// A workspace name contains no path separator, so it names exactly one
/// directory level.
pub proof fn lemma_ws_name_no_slash(m: nat, s: nat)
    ensures
        avoids_char(ws_name_seq(m, s), '/'),
{
    reveal_strlit("task-");
    lemma_dec_digits_avoid(m, '/');
    lemma_dec_digits_avoid(s, '/');
    assert forall|i: int| 0 <= i < ws_name_seq(m, s).len() implies ws_name_seq(m, s)[i]
        != '/' by {
        let p = "task-"@;
        let d1 = dec_digits(m);
        let d2 = dec_digits(s);
        let w = ws_name_seq(m, s);
        if i < p.len() {
            assert(w[i] == p[i]);
        } else if i < p.len() + d1.len() {
            assert(w[i] == d1[i - p.len()]);
        } else if i == p.len() + d1.len() {
            assert(w[i] == '-');
        } else {
            assert(w[i] == d2[i - p.len() - d1.len() - 1]);
        }
    }
}

/// Files in distinct workspaces have distinct paths: no file written by one
/// job is the file of another, however the two jobs name their files.
pub proof fn lemma_distinct_workspaces_isolate_files(
    ws1: Seq<char>,
    n1: Seq<char>,
    ws2: Seq<char>,
    n2: Seq<char>,
)
    requires
        avoids_char(ws1, '/'),
        avoids_char(ws2, '/'),
        ws1 != ws2,
    ensures
        file_path_seq(ws1, n1) != file_path_seq(ws2, n2),
{
    if file_path_seq(ws1, n1) == file_path_seq(ws2, n2) {
        lemma_sep_concat_injective(ws1, n1, ws2, n2, '/');
    }
}

/// Isolation of concurrent jobs, end to end: jobs distinguished by their
/// (time, counter) pair write under different directories, and no path of
/// one equals any path of the other.
pub proof fn lemma_concurrent_jobs_isolated(
    m1: nat,
    s1: nat,
    n1: Seq<char>,
    m2: nat,
    s2: nat,
    n2: Seq<char>,
)
    requires
        m1 != m2 || s1 != s2,
    ensures
        ws_name_seq(m1, s1) != ws_name_seq(m2, s2),
        file_path_seq(ws_name_seq(m1, s1), n1) != file_path_seq(ws_name_seq(m2, s2), n2),
{
    if ws_name_seq(m1, s1) == ws_name_seq(m2, s2) {
        lemma_ws_name_injective(m1, s1, m2, s2);
    }
    lemma_ws_name_no_slash(m1, s1);
    lemma_ws_name_no_slash(m2, s2);
    lemma_distinct_workspaces_isolate_files(ws_name_seq(m1, s1), n1, ws_name_seq(m2, s2), n2);
}

/// Builds the unique directory name for one job.
pub fn workspace_name(millis: u64, seq_no: u64) -> (r: String)
    ensures
        r@ == ws_name_seq(millis as nat, seq_no as nat),
{
    proof {
        reveal_strlit("-");
    }
    let r = String::from_str("task-").concat(dec_str(millis).as_str()).concat("-").concat(
        dec_str(seq_no).as_str(),
    );
    proof {
        assert(r@ =~= ws_name_seq(millis as nat, seq_no as nat));
    }
    r
}

/// Builds the path of one submitted file inside a workspace.
pub fn path_for(workspace: &String, name: &String) -> (r: String)
    ensures
        r@ == file_path_seq(workspace@, name@),
{
    proof {
        reveal_strlit("/");
    }
    let r = workspace.clone().concat("/").concat(name.as_str());
    proof {
        assert(r@ =~= file_path_seq(workspace@, name@));
    }
    r
}

/// Whether a file name carries the extension `ext`: it ends in a dot
/// followed by exactly `ext`.
pub open spec fn has_ext(name: Seq<char>, ext: Seq<char>) -> bool {
    name.len() > ext.len() && name.subrange(
        name.len() - ext.len() - 1,
        name.len() as int,
    ) == seq!['.'] + ext
}

/// A file name that carries the extension still carries it once prefixed
/// with its workspace directory.
pub proof fn lemma_path_keeps_ext(ws: Seq<char>, name: Seq<char>, ext: Seq<char>)
    requires
        has_ext(name, ext),
    ensures
        has_ext(file_path_seq(ws, name), ext),
{
    let p = file_path_seq(ws, name);
    assert(p.subrange(p.len() - ext.len() - 1, p.len() as int) =~= name.subrange(
        name.len() - ext.len() - 1,
        name.len() as int,
    ));
}

/// Decides whether one file name carries the extension.
pub fn name_matches(name: &String, ext: &String) -> (b: bool)
    ensures
        b == has_ext(name@, ext@),
{
    let nl = name.as_str().unicode_len();
    let el = ext.as_str().unicode_len();
    if nl <= el {
        return false;
    }
    let suffix = name.as_str().substring_char(nl - el - 1, nl);
    let expected = String::from_str(".").concat(ext.as_str());
    let found = String::from_str(suffix);
    proof {
        reveal_strlit(".");
        assert(expected@ =~= seq!['.'] + ext@);
    }
    found == expected
}

/// The submitted files hold no usable entry point for the language: either
/// none of them carries its extension, or more than one does.
#[derive(Debug)]
pub enum EntryError {
    NoEntry,
    MultipleEntries,
}

/// Whether the file at index `i` carries the language's extension.
pub open spec fn entry_matches(files: Seq<ExecuteRequestFiles>, ext: Seq<char>, i: int) -> bool {
    has_ext(files[i].name@, ext)
}

/// Finds the single entry file: the one submitted file whose name carries
/// the language's extension. Zero or several carriers is a caller error,
/// told apart in the result.
pub fn resolve_entry(files: &Vec<ExecuteRequestFiles>, ext: &String) -> (r: Result<
    usize,
    EntryError,
>)
    ensures
        r is Ok ==> {
            &&& (r->Ok_0 as int) < files@.len()
            &&& entry_matches(files@, ext@, r->Ok_0 as int)
            &&& forall|j: int|
                0 <= j < files@.len() && j != r->Ok_0 as int ==> !entry_matches(files@, ext@, j)
        },
        r == Err::<usize, EntryError>(EntryError::NoEntry) <==> (forall|j: int|
            0 <= j < files@.len() ==> !entry_matches(files@, ext@, j)),
        r == Err::<usize, EntryError>(EntryError::MultipleEntries) <==> (exists|i: int, j: int|
            0 <= i < j < files@.len() && entry_matches(files@, ext@, i) && entry_matches(
                files@,
                ext@,
                j,
            )),
{
    let mut found: Option<usize> = None;
    let mut k: usize = 0;
    while k < files.len()
        invariant
            k <= files@.len(),
            match found {
                Some(i) => {
                    &&& (i as int) < k
                    &&& entry_matches(files@, ext@, i as int)
                    &&& forall|j: int|
                        0 <= j < k && j != i as int ==> !entry_matches(files@, ext@, j)
                },
                None => forall|j: int| 0 <= j < k ==> !entry_matches(files@, ext@, j),
            },
        decreases files@.len() - k,
    {
        if name_matches(&files[k].name, ext) {
            match found {
                Some(first) => {
                    proof {
                        assert((first as int) < (k as int) && (k as int) < files@.len()
                            && entry_matches(files@, ext@, first as int) && entry_matches(
                            files@,
                            ext@,
                            k as int,
                        ));
                    }
                    return Err(EntryError::MultipleEntries);
                },
                None => {
                    found = Some(k);
                },
            }
        }
        k = k + 1;
    }
    match found {
        Some(i) => Ok(i),
        None => Err(EntryError::NoEntry),
    }
}

} // verus!
