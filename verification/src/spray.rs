//! Setting a spray: the material file written beside the sprays, and the
//! texture copied to `spray.vtf`.
use vstd::prelude::*;
use crate::text::{join_path, joined, trim_vtf, trim_vtf_suffixes, vtf_suffix};

verus! {

/// The files that setting a spray writes, in the spray folder.
#[derive(Debug, PartialEq, Eq)]
pub struct SprayFiles {
    /// Where the material is written: `<folder>/spray.vmt`.
    pub vmt_path: String,
    /// The material, which points the game at the chosen texture.
    pub vmt_content: String,
    /// The chosen texture inside the folder: `<folder>/<file>`.
    pub local_source: String,
    /// Where the texture is copied: `<folder>/spray.vtf`.
    pub target: String,
}

/// The text of the material for the texture `stem` (a file name without its
/// `.vtf`): an unlit, translucent material drawn through walls with vertex
/// colour and alpha.
pub open spec fn vmt_text(stem: Seq<char>) -> Seq<char> {
    "\"UnlitGeneric\"\n{\n\t\"$basetexture\"\t\"vgui/logos/"@ + stem
        + "\"\n\t\"$translucent\" \"1\"\n\t\"$ignorez\" \"1\"\n\t\"$vertexcolor\" \"1\"\n\t\"$vertexalpha\" \"1\"\n}"@
}

/// The files that setting `selected_file` as the spray of the folder
/// `directory_path` writes.
pub fn set_as_spray(selected_file: &str, directory_path: &str) -> (r: SprayFiles)
    ensures
        r.vmt_path@ == joined(directory_path@, "spray.vmt"@),
        r.vmt_content@ == vmt_text(trim_vtf(selected_file@)),
        r.local_source@ == joined(directory_path@, selected_file@),
        r.target@ == joined(directory_path@, "spray.vtf"@),
{
    let stem = trim_vtf_suffixes(selected_file);
    let mut content = "\"UnlitGeneric\"\n{\n\t\"$basetexture\"\t\"vgui/logos/".to_owned();
    content.append(stem.as_str());
    content.append(
        "\"\n\t\"$translucent\" \"1\"\n\t\"$ignorez\" \"1\"\n\t\"$vertexcolor\" \"1\"\n\t\"$vertexalpha\" \"1\"\n}",
    );
    SprayFiles {
        vmt_path: join_path(directory_path, "spray.vmt"),
        vmt_content: content,
        local_source: join_path(directory_path, selected_file),
        target: join_path(directory_path, "spray.vtf"),
    }
}

/// The file that would fill `spray.vtf`: the chosen texture inside the
/// folder when it is there; otherwise the path the spray was picked from in
/// the favorites, when it was.
pub open spec fn copy_candidate(files: SprayFiles, local_exists: bool, truepath: Option<String>) -> Option<String> {
    if local_exists {
        Some(files.local_source)
    } else {
        truepath
    }
}

/// The file copied to `spray.vtf`: the candidate above, unless it is
/// `spray.vtf` itself (by its path), which then already holds the chosen
/// texture and is left alone; otherwise none.
pub fn spray_copy_source(files: &SprayFiles, local_exists: bool, truepath: &Option<String>) -> (r: Option<String>)
    ensures
        r == match copy_candidate(*files, local_exists, *truepath) {
            Some(c) => if c@ == files.target@ {
                None
            } else {
                Some(c)
            },
            None => None,
        },
{
    let candidate = if local_exists {
        Some(files.local_source.clone())
    } else {
        match truepath {
            Some(p) => Some(p.clone()),
            None => None,
        }
    };
    match candidate {
        Some(c) => {
            if c == files.target {
                None
            } else {
                Some(c)
            }
        },
        None => None,
    }
}

/// A spray is never copied onto itself: a copy source is never the
/// `spray.vtf` it would be copied to.
pub proof fn law_spray_never_copied_onto_itself(
    files: SprayFiles,
    local_exists: bool,
    truepath: Option<String>,
    r: Option<String>,
)
    requires
        r == match copy_candidate(files, local_exists, truepath) {
            Some(c) => if c@ == files.target@ {
                None
            } else {
                Some(c)
            },
            None => None,
        },
    ensures
        r matches Some(c) ==> c@ != files.target@,
{
}

/// The texture name a material points at never ends with `.vtf`, and
/// names without that ending are kept whole.
pub proof fn law_trimmed_name_has_no_vtf_suffix(s: Seq<char>)
    ensures
        !(trim_vtf(s).len() >= 4 && trim_vtf(s).subrange(trim_vtf(s).len() - 4, trim_vtf(s).len() as int)
            == vtf_suffix()),
        !(s.len() >= 4 && s.subrange(s.len() - 4, s.len() as int) == vtf_suffix()) ==> trim_vtf(s) == s,
        trim_vtf(s).len() <= s.len(),
        trim_vtf(s) == s.subrange(0, trim_vtf(s).len() as int),
    decreases s.len(),
{
    if s.len() >= 4 && s.subrange(s.len() - 4, s.len() as int) == vtf_suffix() {
        let t = s.subrange(0, s.len() - 4);
        law_trimmed_name_has_no_vtf_suffix(t);
        assert(trim_vtf(s) == trim_vtf(t));
        assert(t.subrange(0, trim_vtf(t).len() as int) =~= s.subrange(0, trim_vtf(t).len() as int));
    } else {
        assert(s.subrange(0, s.len() as int) =~= s);
    }
}


/// The material names the texture whole, whatever its length: its text is
/// the fixed opening up to `vgui/logos/`, then every character of the
/// texture name, then the fixed closing from the quote after it.
pub proof fn law_material_names_whole_texture(stem: Seq<char>)
    ensures
        vmt_text(stem).len() == 45 + stem.len() + 79,
        vmt_text(stem).subrange(0, 45) == "\"UnlitGeneric\"\n{\n\t\"$basetexture\"\t\"vgui/logos/"@,
        vmt_text(stem).subrange(45, 45 + stem.len() as int) == stem,
        vmt_text(stem).subrange(45 + stem.len() as int, vmt_text(stem).len() as int)
            == "\"\n\t\"$translucent\" \"1\"\n\t\"$ignorez\" \"1\"\n\t\"$vertexcolor\" \"1\"\n\t\"$vertexalpha\" \"1\"\n}"@,
{
    let pre = "\"UnlitGeneric\"\n{\n\t\"$basetexture\"\t\"vgui/logos/"@;
    let post = "\"\n\t\"$translucent\" \"1\"\n\t\"$ignorez\" \"1\"\n\t\"$vertexcolor\" \"1\"\n\t\"$vertexalpha\" \"1\"\n}"@;
    reveal_strlit("\"UnlitGeneric\"\n{\n\t\"$basetexture\"\t\"vgui/logos/");
    reveal_strlit("\"\n\t\"$translucent\" \"1\"\n\t\"$ignorez\" \"1\"\n\t\"$vertexcolor\" \"1\"\n\t\"$vertexalpha\" \"1\"\n}");
    let t = vmt_text(stem);
    assert(t == pre + stem + post);
    assert(t.subrange(0, 45) =~= pre);
    assert(t.subrange(45, 45 + stem.len() as int) =~= stem);
    assert(t.subrange(45 + stem.len() as int, t.len() as int) =~= post);
}

/// What taking the `.vtf` endings off removes is a run of `.vtf` and
/// nothing else: the name is what is left followed by `.vtf` some number of
/// times.
pub proof fn law_trim_removes_only_vtf(s: Seq<char>)
    ensures
        (s.len() - trim_vtf(s).len()) % 4 == 0,
        forall|j: int|
            0 <= j < (s.len() - trim_vtf(s).len()) / 4 ==> #[trigger] s.subrange(
                trim_vtf(s).len() + 4 * j,
                trim_vtf(s).len() + 4 * j + 4,
            ) == vtf_suffix(),
    decreases s.len(),
{
    law_trimmed_name_has_no_vtf_suffix(s);
    if s.len() >= 4 && s.subrange(s.len() - 4, s.len() as int) == vtf_suffix() {
        let t = s.subrange(0, s.len() - 4);
        law_trim_removes_only_vtf(t);
        law_trimmed_name_has_no_vtf_suffix(t);
        let m = trim_vtf(t).len();
        assert(trim_vtf(s) == trim_vtf(t));
        assert forall|j: int| 0 <= j < (s.len() - m) / 4 implies #[trigger] s.subrange(m + 4 * j, m + 4 * j + 4)
            == vtf_suffix() by {
            if j < (t.len() - m) / 4 {
                assert(t.subrange(m + 4 * j, m + 4 * j + 4) == vtf_suffix());
                assert(s.subrange(m + 4 * j, m + 4 * j + 4) =~= t.subrange(m + 4 * j, m + 4 * j + 4));
            } else {
                assert(m + 4 * j == s.len() - 4);
            }
        }
    }
}

} // verus!
