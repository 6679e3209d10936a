//! The sprays a folder offers: its files with the `vtf` extension.
use vstd::prelude::*;
use crate::documents::texts;
use crate::text::{ends_with_vtf, extension_of, lemma_vtf_extension, vtf_suffix};
use crate::search::{lemma_filter_map_add, lemma_filter_map_keeps, lemma_filter_map_one};

verus! {

/// One entry of a folder listing, as the file system reports it: its name
/// where it is valid text, and whether it is a file.
#[derive(Debug, PartialEq, Eq)]
pub struct FolderEntry {
    pub file_name: Option<String>,
    pub is_file: bool,
}

/// The name under which an entry is offered as a spray: that of a file
/// whose name is valid text with the extension `vtf`.
pub open spec fn spray_name(e: FolderEntry) -> Option<Seq<char>> {
    match e.file_name {
        Some(n) => if e.is_file && extension_of(n@) == Some("vtf"@) {
            Some(n@)
        } else {
            None
        },
        None => None,
    }
}

/// No two entries of a listing that have a name share it.
pub open spec fn names_distinct(entries: Seq<FolderEntry>) -> bool {
    forall|i: int, j: int|
        0 <= i < j < entries.len() && #[trigger] entries[i].file_name is Some && #[trigger] entries[j].file_name is Some
            ==> entries[i].file_name.unwrap()@ != entries[j].file_name.unwrap()@
}

/// The names of the sprays in a folder listing, in the listing's order.
pub open spec fn spray_names(entries: Seq<FolderEntry>) -> Seq<Seq<char>> {
    entries.filter_map(|e: FolderEntry| spray_name(e))
}

/// The names of the `.vtf` files of a folder listing, in its order.
pub fn get_vtf_files(entries: &Vec<FolderEntry>) -> (r: Vec<String>)
    ensures
        texts(r@) == spray_names(entries@),
{
    let ghost f = |e: FolderEntry| spray_name(e);
    let mut r: Vec<String> = Vec::new();
    let mut i: usize = 0;
    while i < entries.len()
        invariant
            i <= entries.len(),
            f == (|e: FolderEntry| spray_name(e)),
            texts(r@) == entries@.take(i as int).filter_map(f),
        decreases entries.len() - i,
    {
        assert(entries@.take(i + 1).drop_last() =~= entries@.take(i as int));
        let e = &entries[i];
        if e.is_file {
            match &e.file_name {
                Some(n) => {
                    proof {
                        lemma_vtf_extension(n@);
                    }
                    if ends_with_vtf(n.as_str()) && n.as_str().unicode_len() > 4 {
                        r.push(n.clone());
                        assert(texts(r@) =~= entries@.take(i as int).filter_map(f).push(n@));
                    }
                },
                None => {},
            }
        }
        i = i + 1;
    }
    assert(entries@.take(i as int) =~= entries@);
    r
}

/// Every name offered is the name of a file of the listing, is longer than
/// `.vtf` and ends with it.
pub proof fn law_offered_names_are_vtf_files(entries: Seq<FolderEntry>, k: int)
    requires
        0 <= k < spray_names(entries).len(),
    ensures
        exists|e: FolderEntry|
            #[trigger] entries.contains(e) && e.is_file && e.file_name is Some && e.file_name.unwrap()@
                == spray_names(entries)[k],
        spray_names(entries)[k].len() > 4,
        spray_names(entries)[k].subrange(spray_names(entries)[k].len() - 4, spray_names(entries)[k].len() as int)
            == vtf_suffix(),
{
    let f = |e: FolderEntry| spray_name(e);
    let x = spray_names(entries)[k];
    assert(entries.filter_map(f).contains(x));
    entries.lemma_filter_map_contains(f, x);
    let e = choose|e: FolderEntry| #[trigger] entries.contains(e) && f(e) == Some(x);
    lemma_vtf_extension(x);
}

/// A listing whose names are distinct offers no name twice.
pub proof fn law_offered_names_are_distinct(entries: Seq<FolderEntry>)
    requires
        names_distinct(entries),
    ensures
        spray_names(entries).no_duplicates(),
    decreases entries.len(),
{
    if entries.len() > 0 {
        let rest = entries.drop_last();
        assert forall|i: int, j: int|
            0 <= i < j < rest.len() && #[trigger] rest[i].file_name is Some && #[trigger] rest[j].file_name is Some
                implies rest[i].file_name.unwrap()@ != rest[j].file_name.unwrap()@ by {
            assert(rest[i] == entries[i] && rest[j] == entries[j]);
        }
        law_offered_names_are_distinct(rest);
        let f = |e: FolderEntry| spray_name(e);
        match f(entries.last()) {
            Some(x) => {
                if spray_names(rest).contains(x) {
                    rest.lemma_filter_map_contains(f, x);
                    let t = choose|t: FolderEntry| #[trigger] rest.contains(t) && f(t) == Some(x);
                    let i = choose|i: int| 0 <= i < rest.len() && rest[i] == t;
                    assert(entries[i] == t);
                    assert(entries[entries.len() - 1] == entries.last());
                }
                assert(spray_names(entries) == spray_names(rest).push(x));
            },
            None => {
                assert(spray_names(entries) == spray_names(rest));
            },
        }
    }
}


/// Every file of a listing whose text name has the extension `vtf` is
/// offered, whatever else its name holds.
pub proof fn law_every_vtf_file_is_offered(entries: Seq<FolderEntry>, k: int)
    requires
        0 <= k < entries.len(),
        entries[k].is_file,
        entries[k].file_name is Some,
        extension_of(entries[k].file_name.unwrap()@) == Some("vtf"@),
    ensures
        spray_names(entries).contains(entries[k].file_name.unwrap()@),
{
    lemma_filter_map_keeps(entries, |e: FolderEntry| spray_name(e), k);
}

/// A listing of one entry offers its name exactly when it is a file with a
/// text name whose extension is `vtf`, and nothing otherwise.
pub proof fn law_one_entry_offered(e: FolderEntry)
    ensures
        spray_names(seq![e]) == if e.is_file && e.file_name is Some && extension_of(e.file_name.unwrap()@)
            == Some("vtf"@) {
            seq![e.file_name.unwrap()@]
        } else {
            Seq::<Seq<char>>::empty()
        },
{
    lemma_filter_map_one(e, |e: FolderEntry| spray_name(e));
}

/// Two listings one after the other offer their names one after the other:
/// the order of the listing is kept and no entry depends on another.
pub proof fn law_listings_concatenate(a: Seq<FolderEntry>, b: Seq<FolderEntry>)
    ensures
        spray_names(a + b) == spray_names(a) + spray_names(b),
{
    lemma_filter_map_add(a, b, |e: FolderEntry| spray_name(e));
}

} // verus!
