//! Game profiles: a game's name and the folder where that game keeps its
//! sprays. A profile named `default` is always present in a loaded list.
use vstd::prelude::*;
use crate::search::{
    first_index, lemma_filter_map_add, lemma_filter_map_keeps, lemma_filter_map_one, lemma_first_index_facts,
    lemma_first_index_is,
};
use crate::text::str_equals;

verus! {

/// One game profile.
#[derive(Debug, PartialEq, Eq)]
pub struct Gamepaths {
    pub gamename: String,
    pub sprays_path: String,
}

/// A profile as a pair of character sequences: name, then spray folder.
pub type ProfileView = (Seq<char>, Seq<char>);

impl View for Gamepaths {
    type V = ProfileView;

    open spec fn view(&self) -> ProfileView {
        (self.gamename@, self.sprays_path@)
    }
}

impl Gamepaths {
    /// A profile with the given name and spray folder.
    pub fn new(gamename: String, sprays_path: String) -> (r: Gamepaths)
        ensures
            r.gamename == gamename,
            r.sprays_path == sprays_path,
    {
        Gamepaths { gamename, sprays_path }
    }

    /// A second profile with the same name and folder.
    pub fn copy(&self) -> (r: Gamepaths)
        ensures
            r == *self,
    {
        Gamepaths { gamename: self.gamename.clone(), sprays_path: self.sprays_path.clone() }
    }
}

/// The name of the profile that stands for "no game chosen".
pub open spec fn default_name() -> Seq<char> {
    "default"@
}

/// The profile that a loaded list starts with when it has no `default`.
pub open spec fn default_profile() -> ProfileView {
    (default_name(), Seq::empty())
}

/// The views of a list of profiles.
pub open spec fn profile_views(ps: Seq<Gamepaths>) -> Seq<ProfileView> {
    ps.map_values(|p: Gamepaths| p@)
}

/// Whether a profile is called `name`.
pub open spec fn named(name: Seq<char>) -> spec_fn(ProfileView) -> bool {
    |p: ProfileView| p.0 == name
}

/// Whether some profile in `ps` is called `name`.
pub open spec fn has_profile(ps: Seq<ProfileView>, name: Seq<char>) -> bool {
    exists|i: int| 0 <= i < ps.len() && #[trigger] ps[i].0 == name
}

/// The list in use after the profiles file was read: `parsed` is the list
/// the file held, or `None` when it was missing or not a list of profiles.
/// A `default` profile with an empty folder is put first when none is there.
pub open spec fn loaded_profiles(parsed: Option<Seq<ProfileView>>) -> Seq<ProfileView> {
    match parsed {
        None => seq![default_profile()],
        Some(ps) => if has_profile(ps, default_name()) {
            ps
        } else {
            seq![default_profile()] + ps
        },
    }
}

/// `ps` after saving `path` under `name`: the first profile of that name
/// gets the new folder; with no such profile, a new one is added at the end.
pub open spec fn with_profile(ps: Seq<ProfileView>, name: Seq<char>, path: Seq<char>) -> Seq<ProfileView> {
    let i = first_index(ps, named(name));
    if i < ps.len() {
        ps.update(i, (name, path))
    } else {
        ps.push((name, path))
    }
}

/// The folder that choosing `name` loads: that of the first profile called
/// `name`; failing that, that of the first `default`; failing that, nothing.
pub open spec fn profile_path(ps: Seq<ProfileView>, name: Seq<char>) -> Seq<char> {
    let i = first_index(ps, named(name));
    let d = first_index(ps, named(default_name()));
    if i < ps.len() {
        ps[i].1
    } else if d < ps.len() {
        ps[d].1
    } else {
        Seq::empty()
    }
}

/// The profiles shown in the profile window: all but those called `default`.
pub open spec fn shown_profiles(ps: Seq<ProfileView>) -> Seq<ProfileView> {
    ps.filter_map(not_default())
}

/// Keeps a profile unless it is called `default`.
pub open spec fn not_default() -> spec_fn(ProfileView) -> Option<ProfileView> {
    |p: ProfileView| if p.0 != default_name() { Some(p) } else { None }
}

/// The index of the first profile called `name`, or the length of the list.
pub fn position_of(profiles: &Vec<Gamepaths>, name: &str) -> (r: usize)
    ensures
        r == first_index(profile_views(profiles@), named(name@)),
{
    let ghost views = profile_views(profiles@);
    let mut i: usize = 0;
    while i < profiles.len()
        invariant
            i <= profiles.len(),
            views == profile_views(profiles@),
            forall|j: int| 0 <= j < i ==> !named(name@)(#[trigger] views[j]),
        decreases profiles.len() - i,
    {
        if str_equals(profiles[i].gamename.as_str(), name) {
            proof {
                lemma_first_index_is(views, named(name@), i as int);
            }
            return i;
        }
        i = i + 1;
    }
    proof {
        lemma_first_index_is(views, named(name@), i as int);
    }
    i
}

/// The list in use after reading the profiles file; `parsed` is what the file
/// held, `None` when it could not be read as a list of profiles.
pub fn load_profiles(parsed: Option<Vec<Gamepaths>>) -> (r: Vec<Gamepaths>)
    ensures
        profile_views(r@) == loaded_profiles(
            match parsed {
                Some(ps) => Some(profile_views(ps@)),
                None => None,
            },
        ),
{
    let fallback = Gamepaths::new("default".to_owned(), String::new());
    match parsed {
        None => {
            let mut r: Vec<Gamepaths> = Vec::new();
            r.push(fallback);
            assert(profile_views(r@) =~= seq![default_profile()]);
            r
        },
        Some(mut ps) => {
            let ghost views = profile_views(ps@);
            let d = position_of(&ps, "default");
            proof {
                lemma_first_index_facts(views, named(default_name()));
            }
            if d < ps.len() {
                assert(has_profile(views, default_name())) by {
                    assert(views[d as int].0 == default_name());
                }
                ps
            } else {
                assert(!has_profile(views, default_name())) by {
                    if has_profile(views, default_name()) {
                        let k = choose|k: int| 0 <= k < views.len() && #[trigger] views[k].0 == default_name();
                        assert(!named(default_name())(views[k]));
                    }
                }
                ps.insert(0, fallback);
                assert(profile_views(ps@) =~= seq![default_profile()] + views);
                ps
            }
        },
    }
}

/// Saves `sprays_path` under `gamename`: the first profile of that name is
/// given the new folder, or a new profile is added at the end.
pub fn add_profile(profiles: &mut Vec<Gamepaths>, gamename: &str, sprays_path: &str)
    ensures
        profile_views(final(profiles)@) == with_profile(profile_views(old(profiles)@), gamename@, sprays_path@),
{
    let ghost views = profile_views(profiles@);
    let i = position_of(profiles, gamename);
    proof {
        lemma_first_index_facts(views, named(gamename@));
    }
    let entry = Gamepaths::new(gamename.to_owned(), sprays_path.to_owned());
    if i < profiles.len() {
        profiles.set(i, entry);
        assert(profile_views(profiles@) =~= views.update(i as int, (gamename@, sprays_path@)));
    } else {
        profiles.push(entry);
        assert(profile_views(profiles@) =~= views.push((gamename@, sprays_path@)));
    }
}

/// Puts into `directory_path` the spray folder of the profile called
/// `gamename`, or of `default` when there is none, or an empty path.
pub fn load_profile(profiles: &Vec<Gamepaths>, gamename: &str, directory_path: &mut String)
    ensures
        final(directory_path)@ == profile_path(profile_views(profiles@), gamename@),
{
    let ghost views = profile_views(profiles@);
    let i = position_of(profiles, gamename);
    if i < profiles.len() {
        *directory_path = profiles[i].sprays_path.clone();
    } else {
        let d = position_of(profiles, "default");
        if d < profiles.len() {
            *directory_path = profiles[d].sprays_path.clone();
        } else {
            *directory_path = String::new();
        }
    }
}

/// The profiles listed in the profile window, in order: every one not called
/// `default`.
pub fn listed_profiles(profiles: &Vec<Gamepaths>) -> (r: Vec<Gamepaths>)
    ensures
        profile_views(r@) == shown_profiles(profile_views(profiles@)),
{
    let ghost views = profile_views(profiles@);
    let ghost f = not_default();
    let mut r: Vec<Gamepaths> = Vec::new();
    let mut i: usize = 0;
    while i < profiles.len()
        invariant
            i <= profiles.len(),
            views == profile_views(profiles@),
            f == not_default(),
            profile_views(r@) == views.take(i as int).filter_map(f),
        decreases profiles.len() - i,
    {
        assert(views.take(i + 1).drop_last() =~= views.take(i as int));
        if !str_equals(profiles[i].gamename.as_str(), "default") {
            r.push(profiles[i].copy());
            assert(profile_views(r@) =~= views.take(i as int).filter_map(f).push(views[i as int]));
        }
        i = i + 1;
    }
    assert(views.take(i as int) =~= views);
    r
}


/// A loaded list always holds a profile called `default`.
pub proof fn law_loaded_profiles_have_default(parsed: Option<Seq<ProfileView>>)
    ensures
        has_profile(loaded_profiles(parsed), default_name()),
{
    let ps = loaded_profiles(parsed);
    match parsed {
        None => {
            assert(ps[0].0 == default_name());
        },
        Some(q) => {
            if !has_profile(q, default_name()) {
                assert(ps[0].0 == default_name());
            }
        },
    }
}

/// Saving a folder under a name and then choosing that name loads the saved
/// folder.
pub proof fn law_saved_profile_loads(ps: Seq<ProfileView>, name: Seq<char>, path: Seq<char>)
    ensures
        profile_path(with_profile(ps, name, path), name) == path,
{
    let qs = with_profile(ps, name, path);
    let i = first_index(ps, named(name));
    lemma_first_index_facts(ps, named(name));
    assert forall|j: int| 0 <= j < i implies !named(name)(#[trigger] qs[j]) by {
        assert(qs[j] == ps[j]);
        assert(!named(name)(ps[j]));
    }
    lemma_first_index_is(qs, named(name), i);
}

/// Saving a folder under one name leaves what every other name loads as it
/// was, as long as the saved name is not `default` (which is what a missing
/// name falls back to).
pub proof fn law_save_keeps_other_profiles(
    ps: Seq<ProfileView>,
    name: Seq<char>,
    path: Seq<char>,
    other: Seq<char>,
)
    requires
        other != name,
        name != default_name(),
    ensures
        profile_path(with_profile(ps, name, path), other) == profile_path(ps, other),
{
    let qs = with_profile(ps, name, path);
    let i = first_index(ps, named(name));
    lemma_first_index_facts(ps, named(name));
    assert forall|k: int| 0 <= k < ps.len() implies (#[trigger] qs[k]).0 == name || qs[k] == ps[k] by {}
    same_first_index(ps, qs, other, i);
    same_first_index(ps, qs, default_name(), i);
}

/// Where `qs` agrees with `ps` everywhere but at `i`, and neither holds a
/// profile called `n` at `i`, the first profile called `n` is at the same
/// place in both, with the same folder.
proof fn same_first_index(ps: Seq<ProfileView>, qs: Seq<ProfileView>, n: Seq<char>, i: int)
    requires
        0 <= i <= ps.len(),
        qs.len() == ps.len() || (qs.len() == ps.len() + 1 && i == ps.len()),
        forall|k: int| 0 <= k < ps.len() && k != i ==> qs[k] == ps[k],
        i < qs.len() ==> qs[i].0 != n,
        i < ps.len() ==> ps[i].0 != n,
    ensures
        first_index(ps, named(n)) < ps.len() ==> first_index(qs, named(n)) == first_index(ps, named(n)),
        first_index(ps, named(n)) < ps.len() ==> qs[first_index(ps, named(n))] == ps[first_index(ps, named(n))],
        first_index(qs, named(n)) < qs.len() <==> first_index(ps, named(n)) < ps.len(),
{
    let a = first_index(ps, named(n));
    lemma_first_index_facts(ps, named(n));
    if a < ps.len() {
        assert(a != i);
        assert forall|j: int| 0 <= j < a implies !named(n)(#[trigger] qs[j]) by {
            if j != i {
                assert(!named(n)(ps[j]));
            }
        }
        lemma_first_index_is(qs, named(n), a);
    } else {
        assert forall|j: int| 0 <= j < qs.len() implies !named(n)(#[trigger] qs[j]) by {
            if j != i && j < ps.len() {
                assert(!named(n)(ps[j]));
            }
        }
        lemma_first_index_is(qs, named(n), qs.len() as int);
    }
}

/// Saving keeps a `default` profile in the list.
pub proof fn law_save_keeps_default(ps: Seq<ProfileView>, name: Seq<char>, path: Seq<char>)
    requires
        has_profile(ps, default_name()),
    ensures
        has_profile(with_profile(ps, name, path), default_name()),
{
    let qs = with_profile(ps, name, path);
    let i = first_index(ps, named(name));
    lemma_first_index_facts(ps, named(name));
    let k = choose|k: int| 0 <= k < ps.len() && #[trigger] ps[k].0 == default_name();
    if k == i && i < ps.len() {
        assert(qs[i].0 == name);
        assert(name == default_name());
    } else {
        assert(qs[k] == ps[k]);
    }
}

/// Saving a name adds a profile only when the name is new, so no name ever
/// gets a second profile from saving.
pub proof fn law_save_adds_only_new_names(ps: Seq<ProfileView>, name: Seq<char>, path: Seq<char>)
    ensures
        with_profile(ps, name, path).len() == if has_profile(ps, name) {
            ps.len()
        } else {
            ps.len() + 1
        },
        has_profile(with_profile(ps, name, path), name),
{
    let i = first_index(ps, named(name));
    lemma_first_index_facts(ps, named(name));
    let qs = with_profile(ps, name, path);
    if has_profile(ps, name) {
        let k = choose|k: int| 0 <= k < ps.len() && #[trigger] ps[k].0 == name;
        if i >= ps.len() {
            assert(!named(name)(ps[k]));
        }
    }
    assert(qs[i].0 == name);
}

/// Saving the same folder under the same name twice is the same as saving it
/// once.
pub proof fn law_save_is_idempotent(ps: Seq<ProfileView>, name: Seq<char>, path: Seq<char>)
    ensures
        with_profile(with_profile(ps, name, path), name, path) == with_profile(ps, name, path),
{
    let qs = with_profile(ps, name, path);
    let i = first_index(ps, named(name));
    lemma_first_index_facts(ps, named(name));
    assert forall|j: int| 0 <= j < i implies !named(name)(#[trigger] qs[j]) by {
        assert(qs[j] == ps[j]);
        assert(!named(name)(ps[j]));
    }
    lemma_first_index_is(qs, named(name), i);
    assert(qs.update(i, (name, path)) =~= qs);
}

/// The profile window never lists a profile called `default`.
pub proof fn law_default_is_not_listed(ps: Seq<ProfileView>)
    ensures
        forall|k: int| 0 <= k < shown_profiles(ps).len() ==> (#[trigger] shown_profiles(ps)[k]).0 != default_name(),
    decreases ps.len(),
{
    if ps.len() > 0 {
        law_default_is_not_listed(ps.drop_last());
        let rest = shown_profiles(ps.drop_last());
        assert(shown_profiles(ps) == match not_default()(ps.last()) {
            Some(s) => rest + seq![s],
            None => rest,
        });
    }
}


/// No two profiles of a list share a name.
pub open spec fn names_distinct(ps: Seq<ProfileView>) -> bool {
    forall|i: int, j: int| 0 <= i < j < ps.len() ==> (#[trigger] ps[i]).0 != (#[trigger] ps[j]).0
}

/// Saving never gives a name a second profile: a list with distinct names
/// keeps them distinct.
pub proof fn law_save_keeps_names_distinct(ps: Seq<ProfileView>, name: Seq<char>, path: Seq<char>)
    requires
        names_distinct(ps),
    ensures
        names_distinct(with_profile(ps, name, path)),
{
    let qs = with_profile(ps, name, path);
    let i = first_index(ps, named(name));
    lemma_first_index_facts(ps, named(name));
    assert forall|a: int, b: int| 0 <= a < b < qs.len() implies (#[trigger] qs[a]).0 != (#[trigger] qs[b]).0 by {
        if i < ps.len() {
            if a == i {
                assert(ps[i].0 == name);
                assert(qs[b] == ps[b]);
            } else if b == i {
                assert(ps[i].0 == name);
                assert(qs[a] == ps[a]);
            } else {
                assert(qs[a] == ps[a] && qs[b] == ps[b]);
            }
        } else if b == ps.len() {
            assert(!named(name)(ps[a]));
        } else {
            assert(qs[a] == ps[a] && qs[b] == ps[b]);
        }
    }
}

/// Loading keeps distinct names distinct: `default` is added only when no
/// profile has that name.
pub proof fn law_loaded_names_distinct(parsed: Option<Seq<ProfileView>>)
    requires
        parsed matches Some(ps) ==> names_distinct(ps),
    ensures
        names_distinct(loaded_profiles(parsed)),
{
    match parsed {
        None => {},
        Some(ps) => {
            if !has_profile(ps, default_name()) {
                let qs = loaded_profiles(parsed);
                assert forall|a: int, b: int| 0 <= a < b < qs.len() implies (#[trigger] qs[a]).0 != (#[trigger] qs[b]).0 by {
                    assert(qs[b] == ps[b - 1]);
                    if a == 0 {
                        assert(ps[b - 1].0 != default_name());
                    } else {
                        assert(qs[a] == ps[a - 1]);
                    }
                }
            }
        },
    }
}


/// Every profile not called `default` is listed in the profile window.
pub proof fn law_every_other_profile_is_listed(ps: Seq<ProfileView>, k: int)
    requires
        0 <= k < ps.len(),
        ps[k].0 != default_name(),
    ensures
        shown_profiles(ps).contains(ps[k]),
{
    lemma_filter_map_keeps(ps, not_default(), k);
}

/// A single profile is listed exactly when it is not called `default`.
pub proof fn law_one_profile_listed(p: ProfileView)
    ensures
        shown_profiles(seq![p]) == if p.0 != default_name() {
            seq![p]
        } else {
            Seq::<ProfileView>::empty()
        },
{
    lemma_filter_map_one(p, not_default());
}

/// Two lists one after the other are listed one after the other: the
/// window keeps the order of the profiles.
pub proof fn law_profile_lists_concatenate(a: Seq<ProfileView>, b: Seq<ProfileView>)
    ensures
        shown_profiles(a + b) == shown_profiles(a) + shown_profiles(b),
{
    lemma_filter_map_add(a, b, not_default());
}

/// Loading keeps every profile the file held, in its order, at the end of
/// the list, with at most one profile (`default`) put before them.
pub proof fn law_loading_keeps_every_profile(ps: Seq<ProfileView>)
    ensures
        loaded_profiles(Some(ps)).len() <= ps.len() + 1,
        loaded_profiles(Some(ps)).subrange(loaded_profiles(Some(ps)).len() - ps.len(), loaded_profiles(Some(ps)).len() as int)
            == ps,
{
    let qs = loaded_profiles(Some(ps));
    if has_profile(ps, default_name()) {
        assert(qs.subrange(0, qs.len() as int) =~= ps);
    } else {
        assert(qs.subrange(1, qs.len() as int) =~= ps);
    }
}

} // verus!
