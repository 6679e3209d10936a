//! The two small JSON documents kept beside the program: the spray folder
//! last typed in (`{"sprays_path": ...}`) and the list of favorite sprays
//! (`{"favorites": [...], ...}`).
use vstd::prelude::*;
use crate::json::{
    flat_document, flat_value, is_string_array, json_get, json_well_formed, parse_json, parsed_json, pretty_json_text,
    json_text, write_json, write_json_pretty, json_get_ref, key_is, law_set_member_keeps_others,
    law_set_member_reads_back, member_replaced, object_pairs, set_member, text_of, JsonValue,
};
use crate::search::{first_index, lemma_filter_map_keeps, lemma_first_index_facts};
use crate::text::{join_path, joined, str_equals};

verus! {

/// The key under which the spray folder is kept.
pub open spec fn sprays_path_key() -> Seq<char> {
    "sprays_path"@
}

/// The key under which the favorites are kept.
pub open spec fn favorites_key() -> Seq<char> {
    "favorites"@
}

/// `doc` is the folder document for `path`: an object whose one member is
/// `"sprays_path"` with the string `path`.
pub open spec fn is_directory_document(doc: JsonValue, path: Seq<char>) -> bool {
    &&& doc is Object
    &&& object_pairs(doc).len() == 1
    &&& object_pairs(doc)[0].0@ == sprays_path_key()
    &&& text_of(object_pairs(doc)[0].1) == Some(path)
}

/// The spray folder a folder document holds: the string under
/// `"sprays_path"`, if there is one.
pub open spec fn sprays_path_in(doc: JsonValue) -> Option<Seq<char>> {
    match json_get(doc, sprays_path_key()) {
        Some(v) => text_of(v),
        None => None,
    }
}

/// The favorites a favorites document holds: the strings in the array under
/// `"favorites"`, in order, anything else in the array left out. None when
/// there is no such array.
pub open spec fn favorites_in(doc: JsonValue) -> Seq<Seq<char>> {
    match json_get(doc, favorites_key()) {
        Some(JsonValue::Array(items)) => items@.filter_map(|v: JsonValue| text_of(v)),
        _ => Seq::empty(),
    }
}

/// `list` with `path` added at the end, unless it is already there.
pub open spec fn with_favorite(list: Seq<Seq<char>>, path: Seq<char>) -> Seq<Seq<char>> {
    if list.contains(path) {
        list
    } else {
        list.push(path)
    }
}

/// `new` is the favorites document `old` after `path` was added to it:
/// every member but `"favorites"` stays as it was and in its place, and
/// `"favorites"` holds, as an array of strings, the favorites of `old` with
/// `path` added unless it was there.
pub open spec fn favorite_added(old: JsonValue, new: JsonValue, path: Seq<char>) -> bool {
    &&& new is Object
    &&& member_replaced(object_pairs(old), object_pairs(new), favorites_key())
    &&& is_string_array(
        object_pairs(new)[first_index(object_pairs(old), key_is(favorites_key()))].1,
        with_favorite(favorites_in(old), path),
    )
}

/// The views of a list of strings.
pub open spec fn texts(v: Seq<String>) -> Seq<Seq<char>> {
    v.map_values(|s: String| s@)
}

/// The folder document that keeps `directory_path`.
pub fn save_directory_path(directory_path: &str) -> (r: JsonValue)
    ensures
        is_directory_document(r, directory_path@),
        json_well_formed(r),
{
    let mut pairs: Vec<(String, JsonValue)> = Vec::new();
    pairs.push(("sprays_path".to_owned(), JsonValue::Str(directory_path.to_owned())));
    JsonValue::Object(pairs)
}

/// The spray folder kept in a folder document, if it holds one.
pub fn load_directory_path(doc: &JsonValue) -> (r: Option<String>)
    ensures
        match r {
            Some(s) => sprays_path_in(*doc) == Some(s@),
            None => sprays_path_in(*doc) is None,
        },
{
    match json_get_ref(doc, "sprays_path") {
        Some(JsonValue::Str(s)) => Some(s.clone()),
        _ => None,
    }
}

/// The strings of `items`, in order, other values left out.
fn strings_of(items: &Vec<JsonValue>) -> (r: Vec<String>)
    ensures
        texts(r@) == items@.filter_map(|v: JsonValue| text_of(v)),
{
    let ghost f = |v: JsonValue| text_of(v);
    let mut r: Vec<String> = Vec::new();
    let mut i: usize = 0;
    while i < items.len()
        invariant
            i <= items.len(),
            f == (|v: JsonValue| text_of(v)),
            texts(r@) == items@.take(i as int).filter_map(f),
        decreases items.len() - i,
    {
        assert(items@.take(i + 1).drop_last() =~= items@.take(i as int));
        match &items[i] {
            JsonValue::Str(s) => {
                r.push(s.clone());
                assert(texts(r@) =~= items@.take(i as int).filter_map(f).push(s@));
            },
            _ => {},
        }
        i = i + 1;
    }
    assert(items@.take(i as int) =~= items@);
    r
}

/// The favorite sprays a favorites document lists.
pub fn get_favorite_sprays(doc: &JsonValue) -> (r: Vec<String>)
    ensures
        texts(r@) == favorites_in(*doc),
{
    match json_get_ref(doc, "favorites") {
        Some(JsonValue::Array(items)) => strings_of(items),
        _ => {
            let r: Vec<String> = Vec::new();
            assert(texts(r@) =~= Seq::<Seq<char>>::empty());
            r
        },
    }
}

/// Whether `list` holds a string equal to `s`.
fn contains_text(list: &Vec<String>, s: &String) -> (r: bool)
    ensures
        r == texts(list@).contains(s@),
{
    let mut i: usize = 0;
    while i < list.len()
        invariant
            i <= list.len(),
            forall|j: int| 0 <= j < i ==> texts(list@)[j] != s@,
        decreases list.len() - i,
    {
        if str_equals(list[i].as_str(), s.as_str()) {
            assert(texts(list@)[i as int] == s@);
            return true;
        }
        i = i + 1;
    }
    false
}

/// The favorites document after the spray `selected_file` of the folder
/// `directory_path` was marked as a favorite: its path `directory/file` is
/// added to the favorites unless it is there, the strings of the favorites
/// array are kept and anything else in it is dropped, and every other member
/// is kept. `doc` is an object, or `null` when it counts as empty.
pub fn favorites_json(doc: JsonValue, directory_path: &str, selected_file: &str) -> (r: JsonValue)
    requires
        doc is Null || doc is Object,
    ensures
        favorite_added(doc, r, joined(directory_path@, selected_file@)),
        json_well_formed(doc) ==> json_well_formed(r),
{
    let full_path = join_path(directory_path, selected_file);
    let mut favorites = get_favorite_sprays(&doc);
    let ghost listed = favorites_in(doc);
    if !contains_text(&favorites, &full_path) {
        favorites.push(full_path);
        assert(texts(favorites@) =~= listed.push(joined(directory_path@, selected_file@)));
    }
    let ghost kept = texts(favorites@);
    assert(kept == with_favorite(listed, joined(directory_path@, selected_file@)));
    let mut items: Vec<JsonValue> = Vec::new();
    let mut i: usize = 0;
    while i < favorites.len()
        invariant
            i <= favorites.len(),
            kept == texts(favorites@),
            items@.len() == i,
            forall|k: int| 0 <= k < i ==> text_of(#[trigger] items@[k]) == Some(kept[k]),
        decreases favorites.len() - i,
    {
        items.push(JsonValue::Str(favorites[i].clone()));
        i = i + 1;
    }
    let value = JsonValue::Array(items);
    assert(is_string_array(value, kept));
    let pairs = set_member(doc, "favorites", value);
    JsonValue::Object(pairs)
}

/// A folder document reads back the folder it was made from.
pub proof fn law_directory_document_reads_back(doc: JsonValue, path: Seq<char>)
    requires
        is_directory_document(doc, path),
    ensures
        sprays_path_in(doc) == Some(path),
{
    lemma_first_index_facts(object_pairs(doc), key_is(sprays_path_key()));
    assert(key_is(sprays_path_key())(object_pairs(doc)[0]));
}

/// The favorites an added-to document lists are the old ones, in their
/// order, with the new path added at the end unless it was there already;
/// so the new path is always listed.
pub proof fn law_added_favorite_is_listed(old: JsonValue, new: JsonValue, path: Seq<char>)
    requires
        favorite_added(old, new, path),
    ensures
        favorites_in(new) == with_favorite(favorites_in(old), path),
        favorites_in(new).contains(path),
{
    let olds = object_pairs(old);
    let news = object_pairs(new);
    law_set_member_reads_back(olds, news, favorites_key());
    let i = first_index(olds, key_is(favorites_key()));
    let want = with_favorite(favorites_in(old), path);
    match news[i].1 {
        JsonValue::Array(items) => {
            lemma_all_strings_filter(items@, want);
        },
        _ => {},
    }
    if !favorites_in(old).contains(path) {
        assert(want[want.len() - 1] == path);
    }
}

/// An array whose items are all strings keeps all of them.
proof fn lemma_all_strings_filter(items: Seq<JsonValue>, want: Seq<Seq<char>>)
    requires
        items.len() == want.len(),
        forall|k: int| 0 <= k < want.len() ==> text_of(#[trigger] items[k]) == Some(want[k]),
    ensures
        items.filter_map(|v: JsonValue| text_of(v)) == want,
    decreases items.len(),
{
    if items.len() > 0 {
        let n = items.len() - 1;
        assert forall|k: int| 0 <= k < n implies text_of(#[trigger] items.drop_last()[k]) == Some(want.drop_last()[k]) by {
            assert(items.drop_last()[k] == items[k]);
        }
        lemma_all_strings_filter(items.drop_last(), want.drop_last());
        assert(text_of(items.last()) == Some(want.last()));
        assert(want =~= want.drop_last() + seq![want.last()]);
    } else {
        assert(want =~= Seq::<Seq<char>>::empty());
    }
}

/// Marking the same spray as a favorite a second time lists the same
/// favorites and changes no other member.
pub proof fn law_favorite_twice_is_once(r0: JsonValue, r1: JsonValue, r2: JsonValue, path: Seq<char>)
    requires
        favorite_added(r0, r1, path),
        favorite_added(r1, r2, path),
    ensures
        favorites_in(r2) == favorites_in(r1),
        object_pairs(r2).len() == object_pairs(r1).len(),
        forall|j: int|
            0 <= j < object_pairs(r1).len() && j != first_index(object_pairs(r1), key_is(favorites_key()))
                ==> object_pairs(r2)[j] == object_pairs(r1)[j],
{
    law_added_favorite_is_listed(r0, r1, path);
    law_added_favorite_is_listed(r1, r2, path);
    law_set_member_reads_back(object_pairs(r0), object_pairs(r1), favorites_key());
}

/// Marking a favorite leaves every other member of the document as it was.
pub proof fn law_favorite_keeps_other_members(old: JsonValue, new: JsonValue, path: Seq<char>, key: Seq<char>)
    requires
        favorite_added(old, new, path),
        key != favorites_key(),
        old is Object || old is Null,
    ensures
        json_get(new, key) == json_get(old, key),
{
    law_set_member_keeps_others(object_pairs(old), object_pairs(new), favorites_key(), key);
}


/// The views of an optional string.
pub open spec fn opt_text(r: Option<String>) -> Option<Seq<char>> {
    match r {
        Some(s) => Some(s@),
        None => None,
    }
}

/// The characters of an optional text.
pub open spec fn opt_str(text: Option<&str>) -> Option<Seq<char>> {
    match text {
        Some(t) => Some(t@),
        None => None,
    }
}

/// The spray folder a folder file's text holds: that of the document it
/// parses to, none when it is not JSON.
pub open spec fn folder_in_text(text: Seq<char>) -> Option<Seq<char>> {
    match parsed_json(text) {
        Some(d) => sprays_path_in(d),
        None => None,
    }
}

/// The favorites a favorites file's text lists: those of the document it
/// parses to, none when it is not JSON.
pub open spec fn favorites_in_text(text: Seq<char>) -> Seq<Seq<char>> {
    match parsed_json(text) {
        Some(d) => favorites_in(d),
        None => Seq::empty(),
    }
}

/// The document marking a favorite starts from: what the file's text
/// parses to, or an empty object when there is no file or no JSON in it.
pub open spec fn starting_document(text: Option<Seq<char>>, root: JsonValue) -> bool {
    match text {
        Some(t) => match parsed_json(t) {
            Some(d) => root == d,
            None => root is Object && object_pairs(root).len() == 0,
        },
        None => root is Object && object_pairs(root).len() == 0,
    }
}

/// The text of the folder file that keeps `directory_path`; it reads back
/// as that folder.
pub fn save_directory_path_text(directory_path: &str) -> (r: String)
    ensures
        exists|doc: JsonValue| is_directory_document(doc, directory_path@) && r@ == #[trigger] json_text(doc),
        folder_in_text(r@) == Some(directory_path@),
{
    let doc = save_directory_path(directory_path);
    proof {
        assert(flat_document(doc));
        law_directory_document_reads_back(doc, directory_path@);
    }
    write_json(&doc)
}

/// The spray folder kept in the text of a folder file, if it holds one.
pub fn load_directory_path_text(text: &str) -> (r: Option<String>)
    ensures
        opt_text(r) == folder_in_text(text@),
{
    match parse_json(text) {
        Some(doc) => load_directory_path(&doc),
        None => None,
    }
}

/// The favorite sprays the text of a favorites file lists.
pub fn get_favorite_sprays_text(text: &str) -> (r: Vec<String>)
    ensures
        texts(r@) == favorites_in_text(text@),
{
    match parse_json(text) {
        Some(doc) => get_favorite_sprays(&doc),
        None => {
            let r: Vec<String> = Vec::new();
            assert(texts(r@) =~= Seq::<Seq<char>>::empty());
            r
        },
    }
}

/// The new text of the favorites file after the spray `selected_file` of
/// `directory_path` is marked, given the file's text (`None` when there is
/// no file). Text that is not JSON counts as an empty object. `None` when
/// the document is JSON but neither an object nor `null`, which has no
/// favorites to add to.
pub fn favorites_json_text(text: Option<&str>, directory_path: &str, selected_file: &str) -> (r: Option<String>)
    ensures
        exists|root: JsonValue|
            #[trigger] starting_document(opt_str(text), root) && (r is None <==> !(root is Null || root is Object)) && (r matches Some(s) ==> exists|new: JsonValue|
                favorite_added(root, new, joined(directory_path@, selected_file@)) && json_well_formed(new)
                    && s@ == #[trigger] pretty_json_text(new)),
        text is None ==> opt_text(r) is Some && favorites_in_text(r.unwrap()@) == seq![joined(directory_path@, selected_file@)],
{
    let root = match text {
        Some(t) => match parse_json(t) {
            Some(d) => d,
            None => JsonValue::Object(Vec::new()),
        },
        None => JsonValue::Object(Vec::new()),
    };
    let ghost start = root;
    assert(starting_document(opt_str(text), start));
    assert(start is Object ==> json_well_formed(start));
    match root {
        JsonValue::Null | JsonValue::Object(_) => {
            let new = favorites_json(root, directory_path, selected_file);
            let out = write_json_pretty(&new);
            proof {
                if object_pairs(start).len() == 0 {
                    let p = joined(directory_path@, selected_file@);
                    law_set_member_reads_back(object_pairs(start), object_pairs(new), favorites_key());
                    assert(flat_value(object_pairs(new)[0].1));
                    assert(flat_document(new));
                    law_added_favorite_is_listed(start, new, p);
                    assert(favorites_in(start) =~= Seq::<Seq<char>>::empty());
                    assert(with_favorite(favorites_in(start), p) =~= seq![p]);
                }
            }
            assert(favorite_added(start, new, joined(directory_path@, selected_file@)) && json_well_formed(new)
                && out@ == pretty_json_text(new));
            Some(out)
        },
        _ => None,
    }
}


/// Marking a favorite loses none: the old favorites are still listed first,
/// in their order, and the list grows by at most one, the marked path,
/// which is always listed.
pub proof fn law_adding_favorite_loses_none(old: JsonValue, new: JsonValue, path: Seq<char>)
    requires
        favorite_added(old, new, path),
    ensures
        favorites_in(new).len() <= favorites_in(old).len() + 1,
        favorites_in(old).len() <= favorites_in(new).len(),
        forall|i: int| 0 <= i < favorites_in(old).len() ==> favorites_in(new)[i] == favorites_in(old)[i],
        favorites_in(new).contains(path),
        favorites_in(new).len() == favorites_in(old).len() + 1 ==> favorites_in(new).last() == path,
{
    law_added_favorite_is_listed(old, new, path);
}

/// Every string in the favorites array of a document is listed.
pub proof fn law_every_string_favorite_is_listed(doc: JsonValue, items: Vec<JsonValue>, k: int)
    requires
        json_get(doc, favorites_key()) == Some(JsonValue::Array(items)),
        0 <= k < items@.len(),
        text_of(items@[k]) is Some,
    ensures
        favorites_in(doc).contains(text_of(items@[k]).unwrap()),
{
    lemma_filter_map_keeps(items@, |v: JsonValue| text_of(v), k);
}

/// Only strings of the favorites array are listed.
pub proof fn law_only_string_favorites_are_listed(doc: JsonValue, items: Vec<JsonValue>, t: Seq<char>)
    requires
        json_get(doc, favorites_key()) == Some(JsonValue::Array(items)),
        favorites_in(doc).contains(t),
    ensures
        exists|v: JsonValue| #[trigger] items@.contains(v) && text_of(v) == Some(t),
{
    items@.lemma_filter_map_contains(|v: JsonValue| text_of(v), t);
}

} // verus!
