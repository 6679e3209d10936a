//! Text helpers over strings, stated over their character sequences.
use vstd::prelude::*;

verus! {

/// The texture extension of a spray, with its dot.
pub open spec fn vtf_suffix() -> Seq<char> {
    ".vtf"@
}

/// `s` with every trailing `.vtf` taken off, as many times as it repeats.
pub open spec fn trim_vtf(s: Seq<char>) -> Seq<char>
    decreases s.len(),
{
    if s.len() >= 4 && s.subrange(s.len() - 4, s.len() as int) == vtf_suffix() {
        trim_vtf(s.subrange(0, s.len() - 4))
    } else {
        s
    }
}

/// `directory/file`: the path of `file` inside `directory`.
pub open spec fn joined(directory: Seq<char>, file: Seq<char>) -> Seq<char> {
    directory + "/"@ + file
}

/// Whether two strings hold the same characters.
pub fn str_equals(a: &str, b: &str) -> (r: bool)
    ensures
        r == (a@ == b@),
{
    let x = a.to_owned();
    let y = b.to_owned();
    x == y
}

/// The path of `file` inside `directory`, joined by a slash.
pub fn join_path(directory: &str, file: &str) -> (r: String)
    ensures
        r@ == joined(directory@, file@),
{
    let mut s = directory.to_owned();
    s.append("/");
    s.append(file);
    s
}

/// Whether `s` ends with `.vtf`.
pub fn ends_with_vtf(s: &str) -> (r: bool)
    ensures
        r == (s@.len() >= 4 && s@.subrange(s@.len() - 4, s@.len() as int) == vtf_suffix()),
{
    let n = s.unicode_len();
    if n < 4 {
        return false;
    }
    let tail = s.substring_char(n - 4, n);
    str_equals(tail, ".vtf")
}

/// `s` with every trailing `.vtf` removed, the way `trim_end_matches(".vtf")`
/// removes a suffix for as long as it repeats.
pub fn trim_vtf_suffixes(s: &str) -> (r: String)
    ensures
        r@ == trim_vtf(s@),
{
    let mut cur: String = s.to_owned();
    let mut n: usize = s.unicode_len();
    while ends_with_vtf(cur.as_str())
        invariant
            n == cur@.len(),
            trim_vtf(cur@) == trim_vtf(s@),
        decreases n,
    {
        let shorter = cur.as_str().substring_char(0, n - 4).to_owned();
        cur = shorter;
        n = n - 4;
    }
    cur
}


/// The index of the last `c` in `p`, or -1 when it has none.
pub open spec fn last_index_of(p: Seq<char>, c: char) -> int
    decreases p.len(),
{
    if p.len() == 0 {
        -1
    } else if p.last() == c {
        p.len() - 1
    } else {
        last_index_of(p.drop_last(), c)
    }
}

/// `last_index_of` is -1 or an index holding `c` with no `c` after it.
pub proof fn lemma_last_index_of(p: Seq<char>, c: char)
    ensures
        -1 <= last_index_of(p, c) < p.len(),
        last_index_of(p, c) >= 0 ==> p[last_index_of(p, c)] == c,
        forall|j: int| last_index_of(p, c) < j < p.len() ==> p[j] != c,
    decreases p.len(),
{
    if p.len() > 0 && p.last() != c {
        lemma_last_index_of(p.drop_last(), c);
        assert forall|j: int| last_index_of(p, c) < j < p.len() implies p[j] != c by {
            if j < p.len() - 1 {
                assert(p[j] == p.drop_last()[j]);
            }
        }
    }
}

/// An index holding `c` with no `c` after it is the last index of `c`.
pub proof fn lemma_last_index_is(p: Seq<char>, c: char, k: int)
    requires
        0 <= k < p.len(),
        p[k] == c,
        forall|j: int| k < j < p.len() ==> p[j] != c,
    ensures
        last_index_of(p, c) == k,
    decreases p.len(),
{
    if k < p.len() - 1 {
        assert forall|j: int| k < j < p.len() - 1 implies p.drop_last()[j] != c by {
            assert(p.drop_last()[j] == p[j]);
        }
        lemma_last_index_is(p.drop_last(), c, k);
    }
}

/// The extension of a file name by std's `Path::extension`: what follows
/// its last `.`, unless there is no `.`, the only `.` starts the name, or
/// the name is `..`.
pub open spec fn extension_of(name: Seq<char>) -> Option<Seq<char>> {
    let i = last_index_of(name, '.');
    if name == ".."@ || i <= 0 {
        None
    } else {
        Some(name.subrange(i + 1, name.len() as int))
    }
}

/// A file name has the extension `vtf` exactly when it is longer than
/// `.vtf` and ends with it.
pub proof fn lemma_vtf_extension(name: Seq<char>)
    ensures
        extension_of(name) == Some("vtf"@) <==> (name.len() > 4 && name.subrange(name.len() - 4, name.len() as int)
            == vtf_suffix()),
{
    reveal_strlit(".vtf");
    reveal_strlit("vtf");
    reveal_strlit("..");
    lemma_last_index_of(name, '.');
    let i = last_index_of(name, '.');
    let n = name.len() as int;
    if name.len() > 4 && name.subrange(n - 4, n) == vtf_suffix() {
        assert(name[n - 4] == name.subrange(n - 4, n)[0]);
        assert(name[n - 3] == name.subrange(n - 4, n)[1]);
        assert(name[n - 2] == name.subrange(n - 4, n)[2]);
        assert(name[n - 1] == name.subrange(n - 4, n)[3]);
        lemma_last_index_is(name, '.', n - 4);
        assert(name != ".."@);
        assert(name.subrange(n - 3, n) =~= "vtf"@);
    }
    if extension_of(name) == Some("vtf"@) {
        let ext = name.subrange(i + 1, n);
        assert(ext.len() == 3);
        assert(name.subrange(n - 4, n) =~= vtf_suffix()) by {
            assert(name[n - 3] == ext[0]);
            assert(name[n - 2] == ext[1]);
            assert(name[n - 1] == ext[2]);
        }
    }
}

} // verus!
