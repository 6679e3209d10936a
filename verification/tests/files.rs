use spray_selector::folder::{get_vtf_files, FolderEntry};
use spray_selector::spray::{set_as_spray, spray_copy_source};
use spray_selector::text::{ends_with_vtf, join_path, str_equals, trim_vtf_suffixes};

fn entry(name: Option<&str>, is_file: bool) -> FolderEntry {
    FolderEntry { file_name: name.map(|n| n.to_string()), is_file }
}

#[test]
fn only_vtf_files_are_offered() {
    let entries = vec![
        entry(Some("a.vtf"), true),
        entry(Some("b.vmt"), true),
        entry(Some("dir.vtf"), false),
        entry(Some("c.VTF"), true),
        entry(None, true),
        entry(Some("noext"), true),
        entry(Some(".vtf"), true),
        entry(Some("vtf"), true),
        entry(Some("..vtf"), true),
        entry(Some("x.vtf.png"), true),
        entry(Some("d.vtf"), true),
    ];
    assert_eq!(
        get_vtf_files(&entries),
        vec!["a.vtf".to_string(), "..vtf".to_string(), "d.vtf".to_string()]
    );
    assert_eq!(get_vtf_files(&vec![]), Vec::<String>::new());
}

#[test]
fn vtf_suffix_trimmed_repeatedly() {
    assert_eq!(trim_vtf_suffixes("cat.vtf"), "cat");
    assert_eq!(trim_vtf_suffixes("cat.vtf.vtf"), "cat");
    assert_eq!(trim_vtf_suffixes("cat.png"), "cat.png");
    assert_eq!(trim_vtf_suffixes(".vtf"), "");
    assert_eq!(trim_vtf_suffixes("vtf"), "vtf");
    assert_eq!(trim_vtf_suffixes("ü.vtf"), "ü");
}

#[test]
fn text_helpers() {
    assert_eq!(join_path("/a/b", "c.vtf"), "/a/b/c.vtf");
    assert_eq!(join_path("", "c"), "/c");
    assert!(ends_with_vtf("x.vtf"));
    assert!(!ends_with_vtf("x.vt"));
    assert!(str_equals("abc", "abc"));
    assert!(!str_equals("abc", "abd"));
}

#[test]
fn spray_files_and_material() {
    let files = set_as_spray("my.spray.vtf", "/tf/materials/vgui/logos");
    assert_eq!(files.vmt_path, "/tf/materials/vgui/logos/spray.vmt");
    assert_eq!(files.local_source, "/tf/materials/vgui/logos/my.spray.vtf");
    assert_eq!(files.target, "/tf/materials/vgui/logos/spray.vtf");
    assert_eq!(
        files.vmt_content,
        "\"UnlitGeneric\"\n{\n\t\"$basetexture\"\t\"vgui/logos/my.spray\"\n\t\"$translucent\" \"1\"\n\t\"$ignorez\" \"1\"\n\t\"$vertexcolor\" \"1\"\n\t\"$vertexalpha\" \"1\"\n}"
    );
}

#[test]
fn copy_source_prefers_local_file() {
    let files = set_as_spray("a.vtf", "/d");
    let fav = Some("/elsewhere/a.vtf".to_string());
    assert_eq!(spray_copy_source(&files, true, &fav), Some("/d/a.vtf".to_string()));
    assert_eq!(spray_copy_source(&files, false, &fav), fav);
    assert_eq!(spray_copy_source(&files, false, &None), None);
}

#[test]
fn spray_vtf_is_not_copied_onto_itself() {
    let files = set_as_spray("spray.vtf", "/d");
    assert_eq!(spray_copy_source(&files, true, &None), None);
    let other = set_as_spray("a.vtf", "/d");
    assert_eq!(spray_copy_source(&other, false, &Some("/d/spray.vtf".to_string())), None);
}
