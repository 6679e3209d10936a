//! The selector window as a state machine: each user event moves the state
//! on and names the outside work (reading, writing, copying, previewing)
//! that the event calls for.
use vstd::prelude::*;
use crate::profiles::Gamepaths;
use crate::text::{join_path, joined, last_index_of, lemma_last_index_is};

verus! {

/// The state of the selector window that its decisions read and change.
#[derive(Debug, PartialEq, Eq)]
pub struct SSS {
    /// The spray folder, as typed or loaded from a profile.
    pub directory_path: String,
    /// The spray chosen last, by its file name.
    pub selected_file: Option<String>,
    pub show_favorites: bool,
    /// The full path of the spray when it was chosen from the favorites.
    pub truepath: Option<String>,
    pub show_gallery: bool,
    pub show_about: bool,
    pub show_profiles: bool,
    /// The profiles as last read from the profiles file.
    pub profiles: Vec<Gamepaths>,
    /// The game name typed into the new-profile form, while it is open.
    pub new_profile_game: Option<String>,
    /// The folder typed into the new-profile form, while it is open.
    pub new_profile_path: Option<String>,
}

/// The four windows that the buttons at the top open and close.
#[derive(Debug, PartialEq, Eq, Clone, Copy)]
pub enum Panel {
    Profiles,
    Favorites,
    Gallery,
    About,
}

/// What the user did.
#[derive(Debug, PartialEq, Eq)]
pub enum UiEvent {
    /// A button at the top was pressed.
    TogglePanel(Panel),
    /// A window was closed from its title bar.
    ClosePanel(Panel),
    /// The folder field now reads this.
    DirectoryEdited(String),
    /// A spray of the list was clicked.
    FileClicked(String),
    /// A spray of the list was right-clicked.
    FileRightClicked(String),
    /// "Set as spray" was pressed.
    SetSprayClicked,
    /// A spray of the gallery was clicked.
    GalleryClicked(String),
    /// The button of a profile was pressed.
    ProfileClicked(String),
    /// "+ Add Profile" was pressed.
    AddProfileClicked,
    /// The game field of the new-profile form now reads this.
    NewProfileGameEdited(String),
    /// The folder field of the new-profile form now reads this.
    NewProfilePathEdited(String),
    /// "Save" of the new-profile form was pressed.
    SaveProfileClicked,
    /// The profiles file was read again and held these profiles.
    ProfilesReloaded(Vec<Gamepaths>),
}

/// The outside work an event calls for.
#[derive(Debug, PartialEq, Eq)]
pub enum UiAction {
    Nothing,
    /// Keep this folder in the folder document.
    SaveDirectory(String),
    /// Read and decode the spray at this path and show it as the preview.
    LoadPreview(String),
    /// Show as the preview the gallery picture of the spray at this path.
    ShowGalleryPreview(String),
    /// Add this spray of this folder to the favorites document.
    AddFavorite { directory_path: String, selected_file: String },
    /// Write the material and copy the texture that set this spray.
    SetSpray { selected_file: String, directory_path: String, truepath: Option<String> },
    /// Read the profiles and load the folder of the profile of this name.
    LoadProfile(String),
    /// Save this folder under this game name in the profiles file.
    SaveProfile { gamename: String, sprays_path: String },
}

impl SSS {
    /// Whether the window `p` is open.
    pub open spec fn panel_open(self, p: Panel) -> bool {
        match p {
            Panel::Profiles => self.show_profiles,
            Panel::Favorites => self.show_favorites,
            Panel::Gallery => self.show_gallery,
            Panel::About => self.show_about,
        }
    }

    /// This state with the window `p` open or closed as `open` says.
    pub open spec fn with_panel(self, p: Panel, open: bool) -> SSS {
        match p {
            Panel::Profiles => SSS { show_profiles: open, ..self },
            Panel::Favorites => SSS { show_favorites: open, ..self },
            Panel::Gallery => SSS { show_gallery: open, ..self },
            Panel::About => SSS { show_about: open, ..self },
        }
    }

    /// Whether the new-profile form is open.
    pub open spec fn form_open(self) -> bool {
        self.new_profile_game is Some && self.new_profile_path is Some
    }

    /// What `step` does: `new` and `action` follow from `self` and `event`.
    pub open spec fn stepped(self, event: UiEvent, new: SSS, action: UiAction) -> bool {
        match event {
            UiEvent::TogglePanel(p) => new == self.with_panel(p, !self.panel_open(p)) && action is Nothing,
            UiEvent::ClosePanel(p) => new == self.with_panel(p, false) && action is Nothing,
            UiEvent::DirectoryEdited(d) => {
                &&& new == SSS { directory_path: d, ..self }
                &&& action matches UiAction::SaveDirectory(x) && x@ == d@
            },
            UiEvent::FileClicked(f) => {
                &&& new == SSS { selected_file: Some(f), ..self }
                &&& action matches UiAction::LoadPreview(x) && x@ == joined(self.directory_path@, f@)
            },
            UiEvent::FileRightClicked(f) => {
                &&& new == self
                &&& action matches UiAction::AddFavorite { directory_path, selected_file }
                    && directory_path@ == self.directory_path@ && selected_file@ == f@
            },
            UiEvent::SetSprayClicked => {
                &&& new == self
                &&& match self.selected_file {
                    Some(s) => action matches UiAction::SetSpray { selected_file, directory_path, truepath }
                        && selected_file@ == s@ && directory_path@ == self.directory_path@
                        && truepath == self.truepath,
                    None => action is Nothing,
                }
            },
            UiEvent::GalleryClicked(f) => {
                &&& new == SSS { selected_file: Some(f), ..self }
                &&& action matches UiAction::ShowGalleryPreview(x) && x@ == joined(self.directory_path@, f@)
            },
            UiEvent::ProfileClicked(n) => {
                &&& new == self
                &&& action matches UiAction::LoadProfile(x) && x@ == n@
            },
            UiEvent::AddProfileClicked => {
                &&& new.new_profile_game matches Some(g) && g@ == Seq::<char>::empty()
                &&& new.new_profile_path matches Some(q) && q@ == Seq::<char>::empty()
                &&& new == SSS { new_profile_game: new.new_profile_game, new_profile_path: new.new_profile_path, ..self }
                &&& action is Nothing
            },
            UiEvent::NewProfileGameEdited(g) => {
                &&& new == if self.form_open() { SSS { new_profile_game: Some(g), ..self } } else { self }
                &&& action is Nothing
            },
            UiEvent::NewProfilePathEdited(q) => {
                &&& new == if self.form_open() { SSS { new_profile_path: Some(q), ..self } } else { self }
                &&& action is Nothing
            },
            UiEvent::SaveProfileClicked => {
                &&& new == self
                &&& match (self.new_profile_game, self.new_profile_path) {
                    (Some(g), Some(q)) => action matches UiAction::SaveProfile { gamename, sprays_path }
                        && gamename@ == g@ && sprays_path@ == q@,
                    _ => action is Nothing,
                }
            },
            UiEvent::ProfilesReloaded(ps) => new == SSS { profiles: ps, ..self } && action is Nothing,
        }
    }

    /// The window as it opens: the folder kept from last time, the profiles
    /// read at start, nothing chosen and every window closed.
    pub fn new(directory_path: String, profiles: Vec<Gamepaths>) -> (r: SSS)
        ensures
            r == (SSS {
                directory_path,
                selected_file: None,
                show_favorites: false,
                truepath: None,
                show_gallery: false,
                show_about: false,
                show_profiles: false,
                profiles,
                new_profile_game: None,
                new_profile_path: None,
            }),
    {
        SSS {
            directory_path,
            selected_file: None,
            show_favorites: false,
            truepath: None,
            show_gallery: false,
            show_about: false,
            show_profiles: false,
            profiles,
            new_profile_game: None,
            new_profile_path: None,
        }
    }

    /// Opens or closes the window `p`.
    fn set_panel(&mut self, p: Panel, open: bool)
        ensures
            *final(self) == old(self).with_panel(p, open),
    {
        match p {
            Panel::Profiles => self.show_profiles = open,
            Panel::Favorites => self.show_favorites = open,
            Panel::Gallery => self.show_gallery = open,
            Panel::About => self.show_about = open,
        }
    }

    /// Whether the window `p` is open.
    pub fn is_open(&self, p: &Panel) -> (r: bool)
        ensures
            r == self.panel_open(*p),
    {
        match p {
            Panel::Profiles => self.show_profiles,
            Panel::Favorites => self.show_favorites,
            Panel::Gallery => self.show_gallery,
            Panel::About => self.show_about,
        }
    }

    /// Moves the window on by one user event and says what outside work the
    /// event calls for.
    pub fn step(&mut self, event: UiEvent) -> (action: UiAction)
        ensures
            old(self).stepped(event, *final(self), action),
    {
        match event {
            UiEvent::TogglePanel(p) => {
                let open = self.is_open(&p);
                self.set_panel(p, !open);
                UiAction::Nothing
            },
            UiEvent::ClosePanel(p) => {
                self.set_panel(p, false);
                UiAction::Nothing
            },
            UiEvent::DirectoryEdited(d) => {
                let saved = d.clone();
                self.directory_path = d;
                UiAction::SaveDirectory(saved)
            },
            UiEvent::FileClicked(f) => {
                let full_path = join_path(self.directory_path.as_str(), f.as_str());
                self.selected_file = Some(f);
                UiAction::LoadPreview(full_path)
            },
            UiEvent::FileRightClicked(f) => {
                UiAction::AddFavorite { directory_path: self.directory_path.clone(), selected_file: f }
            },
            UiEvent::SetSprayClicked => {
                match &self.selected_file {
                    Some(s) => {
                        let truepath = match &self.truepath {
                            Some(t) => Some(t.clone()),
                            None => None,
                        };
                        UiAction::SetSpray {
                            selected_file: s.clone(),
                            directory_path: self.directory_path.clone(),
                            truepath,
                        }
                    },
                    None => UiAction::Nothing,
                }
            },
            UiEvent::GalleryClicked(f) => {
                let full_path = join_path(self.directory_path.as_str(), f.as_str());
                self.selected_file = Some(f);
                UiAction::ShowGalleryPreview(full_path)
            },
            UiEvent::ProfileClicked(n) => UiAction::LoadProfile(n),
            UiEvent::AddProfileClicked => {
                self.new_profile_game = Some(String::new());
                self.new_profile_path = Some(String::new());
                UiAction::Nothing
            },
            UiEvent::NewProfileGameEdited(g) => {
                if self.new_profile_game.is_some() && self.new_profile_path.is_some() {
                    self.new_profile_game = Some(g);
                }
                UiAction::Nothing
            },
            UiEvent::NewProfilePathEdited(q) => {
                if self.new_profile_game.is_some() && self.new_profile_path.is_some() {
                    self.new_profile_path = Some(q);
                }
                UiAction::Nothing
            },
            UiEvent::SaveProfileClicked => {
                match (&self.new_profile_game, &self.new_profile_path) {
                    (Some(g), Some(q)) => UiAction::SaveProfile { gamename: g.clone(), sprays_path: q.clone() },
                    _ => UiAction::Nothing,
                }
            },
            UiEvent::ProfilesReloaded(ps) => {
                self.profiles = ps;
                UiAction::Nothing
            },
        }
    }

    /// Chooses the favorite at the full path `fav`, whose file name the
    /// platform's path rules give as `file_name` (`None` when the path has
    /// none): the spray is chosen by that name, or by the whole path when
    /// there is none, its full path is kept for setting it, and its preview
    /// is read from the full path.
    pub fn select_favorite_named(&mut self, fav: String, file_name: Option<String>) -> (action: UiAction)
        ensures
            *final(self) == (SSS {
                selected_file: Some(
                    match file_name {
                        Some(n) => n,
                        None => fav,
                    },
                ),
                truepath: Some(fav),
                ..*old(self)
            }),
            action == UiAction::LoadPreview(fav),
    {
        let name = match file_name {
            Some(n) => n,
            None => fav.clone(),
        };
        self.selected_file = Some(name);
        self.truepath = Some(fav.clone());
        UiAction::LoadPreview(fav)
    }

    /// Chooses the favorite at the full path `fav`, by its file name as the
    /// platform's path rules give it.
    pub fn select_favorite(&mut self, fav: String) -> (action: UiAction)
        ensures
            final(self).truepath == Some(fav),
            final(self).selected_file matches Some(n) && (n == fav || is_infix(n@, fav@)),
            plain_file_name(fav@) matches Some(name) ==> (final(self).selected_file matches Some(n) && n@ == name),
            *final(self) == (SSS { selected_file: final(self).selected_file, truepath: final(self).truepath, ..*old(self) }),
            action == UiAction::LoadPreview(fav),
    {
        let name = path_file_name(fav.as_str());
        self.select_favorite_named(fav, name)
    }
}

/// The name a favorite is listed under: the file name of its full path as
/// the platform's path rules give it, or the whole path when it has none.
pub fn favorite_label(fav: &str) -> (r: String)
    ensures
        r@ == fav@ || is_infix(r@, fav@),
        plain_file_name(fav@) matches Some(n) ==> r@ == n,
{
    match path_file_name(fav) {
        Some(n) => n,
        None => fav.to_owned(),
    }
}

/// Whether `part` stands somewhere in `whole` as a run of its characters.
pub open spec fn is_infix(part: Seq<char>, whole: Seq<char>) -> bool {
    exists|i: int| 0 <= i && i + part.len() <= whole.len() && #[trigger] whole.subrange(i, i + part.len()) == part
}

/// A file name that every platform's path rules read as one plain
/// component: not empty, not `.` or `..`, and without `/`, `\` or `:`.
pub open spec fn plain_name(n: Seq<char>) -> bool {
    &&& n.len() > 0
    &&& n != "."@
    &&& n != ".."@
    &&& !n.contains('/')
    &&& !n.contains('\\')
    &&& !n.contains(':')
}

/// Whether `c` separates path components on some platform.
pub open spec fn is_separator(c: char) -> bool {
    c == '/' || c == '\\'
}

/// A folder part that does not start with two separators, which would open
/// a network share or a verbatim path (in which `/` stops being a separator
/// on Windows). A drive letter, backslashes or colons anywhere else change
/// nothing about what follows its last `/`.
pub open spec fn plain_folder(d: Seq<char>) -> bool {
    !(d.len() >= 2 && is_separator(d[0]) && is_separator(d[1]))
}

/// For a path `folder/name` with a plain folder and a plain name, the name;
/// `None` for every other path. On such paths the file name is the same on
/// every platform.
pub open spec fn plain_file_name(p: Seq<char>) -> Option<Seq<char>> {
    let i = last_index_of(p, '/');
    if i >= 0 && plain_name(p.subrange(i + 1, p.len() as int)) && plain_folder(p.subrange(0, i)) {
        Some(p.subrange(i + 1, p.len() as int))
    } else {
        None
    }
}

/// The final component of `path` by std's `Path::file_name`, as text;
/// `None` when the path has none (it ends in `..`, or is a root or empty).
/// Which characters separate components, and what counts as a prefix,
/// depends on the platform. Stated: the name is a run of the path's
/// characters, and for `folder/name` with a plain name and a folder that
/// does not start with two separators (see `plain_file_name`) it is `name`
/// on every platform: `/` separates components on Unix and on Windows, and
/// `name` holds neither `/` nor `\\`, so it is the last component on both.
/// What other paths give is not stated.
#[verifier::external_body]
fn path_file_name(path: &str) -> (r: Option<String>)
    ensures
        r matches Some(n) ==> is_infix(n@, path@),
        plain_file_name(path@) is Some ==> r is Some && r.unwrap()@ == plain_file_name(path@).unwrap(),
{
    std::path::Path::new(path).file_name().and_then(|s| s.to_str()).map(|s| s.to_string())
}

/// Pressing a window's button twice leaves the window state as it was.
pub proof fn law_toggle_twice_is_identity(
    s0: SSS,
    s1: SSS,
    s2: SSS,
    p: Panel,
    a1: UiAction,
    a2: UiAction,
)
    requires
        s0.stepped(UiEvent::TogglePanel(p), s1, a1),
        s1.stepped(UiEvent::TogglePanel(p), s2, a2),
    ensures
        s2 == s0,
{
}

/// Pressing a window's button opens it exactly when it was closed, and no
/// other part of the state changes.
pub proof fn law_toggle_flips_only_that_window(s0: SSS, s1: SSS, p: Panel, q: Panel, a: UiAction)
    requires
        s0.stepped(UiEvent::TogglePanel(p), s1, a),
    ensures
        s1.panel_open(p) == !s0.panel_open(p),
        p != q ==> s1.panel_open(q) == s0.panel_open(q),
        s1.directory_path == s0.directory_path && s1.selected_file == s0.selected_file
            && s1.profiles == s0.profiles,
{
}

/// After a spray of the list is clicked, "Set as spray" sets that spray of
/// the current folder.
pub proof fn law_click_then_set_sets_clicked(
    s0: SSS,
    s1: SSS,
    s2: SSS,
    f: String,
    a1: UiAction,
    a2: UiAction,
)
    requires
        s0.stepped(UiEvent::FileClicked(f), s1, a1),
        s1.stepped(UiEvent::SetSprayClicked, s2, a2),
    ensures
        a2 matches UiAction::SetSpray { selected_file, directory_path, truepath } && selected_file@ == f@
            && directory_path@ == s0.directory_path@ && truepath == s0.truepath,
{
}

/// A form that was opened keeps what was typed into it, and "Save" saves
/// exactly that.
pub proof fn law_form_saves_what_was_typed(
    s0: SSS,
    s1: SSS,
    s2: SSS,
    s3: SSS,
    s4: SSS,
    g: String,
    q: String,
    a: Seq<UiAction>,
)
    requires
        a.len() == 4,
        s0.stepped(UiEvent::AddProfileClicked, s1, a[0]),
        s1.stepped(UiEvent::NewProfileGameEdited(g), s2, a[1]),
        s2.stepped(UiEvent::NewProfilePathEdited(q), s3, a[2]),
        s3.stepped(UiEvent::SaveProfileClicked, s4, a[3]),
    ensures
        a[3] matches UiAction::SaveProfile { gamename, sprays_path } && gamename@ == g@ && sprays_path@ == q@,
        s4.form_open(),
{
}


/// For a favorite saved as `folder/name`, with a name that is not empty,
/// not `.` or `..` and has no `/`, `\\` or `:`, the file name is `name`,
/// whatever the folder holds (a drive letter, backslashes, colons, spaces),
/// unless the folder starts with two separators.
pub proof fn law_plain_file_name(d: Seq<char>, n: Seq<char>)
    requires
        plain_name(n),
        plain_folder(d),
    ensures
        plain_file_name(d + "/"@ + n) == Some(n),
{
    reveal_strlit("/");
    let p = d + "/"@ + n;
    assert(p[d.len() as int] == '/');
    assert forall|j: int| d.len() < j < p.len() implies p[j] != '/' by {
        assert(p[j] == n[j - d.len() - 1]);
        if p[j] == '/' {
            assert(n.contains('/'));
        }
    }
    lemma_last_index_is(p, '/', d.len() as int);
    assert(p.subrange(d.len() as int + 1, p.len() as int) =~= n);
    assert(p.subrange(0, d.len() as int) =~= d);
}

/// Choosing a favorite saved as `folder/name` (as above) chooses `name`,
/// keeps the full path for setting it, and reads the preview from it.
pub proof fn law_favorite_chosen_by_its_name(s0: SSS, s1: SSS, d: Seq<char>, n: Seq<char>, fav: String)
    requires
        plain_name(n),
        plain_folder(d),
        fav@ == d + "/"@ + n,
        s1.truepath == Some(fav),
        plain_file_name(fav@) matches Some(name) ==> (s1.selected_file matches Some(x) && x@ == name),
    ensures
        s1.selected_file matches Some(x) && x@ == n,
{
    law_plain_file_name(d, n);
}


/// A spray's full path, its folder joined to its file name, names that file
/// again: the file name of `joined(folder, file)` is `file` for a plain file
/// name in a folder that does not start with two separators.
pub proof fn law_joined_path_names_its_file(d: Seq<char>, f: Seq<char>)
    requires
        plain_name(f),
        plain_folder(d),
    ensures
        plain_file_name(joined(d, f)) == Some(f),
{
    law_plain_file_name(d, f);
}

} // verus!
