use spray_selector::profiles::{
    add_profile, listed_profiles, load_profile, load_profiles, position_of, Gamepaths,
};

fn gp(name: &str, path: &str) -> Gamepaths {
    Gamepaths::new(name.to_string(), path.to_string())
}

#[test]
fn missing_file_gives_only_default() {
    assert_eq!(load_profiles(None), vec![gp("default", "")]);
}

#[test]
fn default_is_put_first_when_absent() {
    let loaded = load_profiles(Some(vec![gp("tf2", "/games/tf/logos")]));
    assert_eq!(loaded, vec![gp("default", ""), gp("tf2", "/games/tf/logos")]);
}

#[test]
fn list_with_default_is_kept_as_is() {
    let list = vec![gp("gmod", "/g"), gp("default", "/d")];
    assert_eq!(load_profiles(Some(list)), vec![gp("gmod", "/g"), gp("default", "/d")]);
}

#[test]
fn empty_list_gets_default() {
    assert_eq!(load_profiles(Some(vec![])), vec![gp("default", "")]);
}

#[test]
fn add_profile_appends_new_name() {
    let mut ps = vec![gp("default", "")];
    add_profile(&mut ps, "l4d2", "/l4d2/logos");
    assert_eq!(ps, vec![gp("default", ""), gp("l4d2", "/l4d2/logos")]);
}

#[test]
fn add_profile_overwrites_first_of_name() {
    let mut ps = vec![gp("default", ""), gp("tf2", "/old"), gp("tf2", "/other")];
    add_profile(&mut ps, "tf2", "/new");
    assert_eq!(ps, vec![gp("default", ""), gp("tf2", "/new"), gp("tf2", "/other")]);
}

#[test]
fn saved_profile_loads_back() {
    let mut ps = load_profiles(Some(vec![gp("gmod", "/g")]));
    add_profile(&mut ps, "tf2", "/tf/materials/vgui/logos");
    let mut dir = String::from("something else");
    load_profile(&ps, "tf2", &mut dir);
    assert_eq!(dir, "/tf/materials/vgui/logos");
}

#[test]
fn saving_twice_is_saving_once() {
    let mut once = vec![gp("default", "")];
    add_profile(&mut once, "tf2", "/a");
    let mut twice = vec![gp("default", "")];
    add_profile(&mut twice, "tf2", "/a");
    add_profile(&mut twice, "tf2", "/a");
    assert_eq!(once, twice);
}

#[test]
fn unknown_profile_falls_back_to_default() {
    let ps = vec![gp("tf2", "/tf"), gp("default", "/fallback")];
    let mut dir = String::from("x");
    load_profile(&ps, "css", &mut dir);
    assert_eq!(dir, "/fallback");
}

#[test]
fn no_profile_and_no_default_gives_empty_path() {
    let ps = vec![gp("tf2", "/tf")];
    let mut dir = String::from("x");
    load_profile(&ps, "css", &mut dir);
    assert_eq!(dir, "");
}

#[test]
fn listed_profiles_skip_default() {
    let ps = vec![gp("default", ""), gp("tf2", "/tf"), gp("default", "/x"), gp("gmod", "/g")];
    assert_eq!(listed_profiles(&ps), vec![gp("tf2", "/tf"), gp("gmod", "/g")]);
}

#[test]
fn position_of_finds_first_or_length() {
    let ps = vec![gp("a", "1"), gp("b", "2"), gp("b", "3")];
    assert_eq!(position_of(&ps, "b"), 1);
    assert_eq!(position_of(&ps, "c"), 3);
}

#[test]
fn copy_keeps_both_fields() {
    let p = gp("tf2", "/tf");
    assert_eq!(p.copy(), p);
}
