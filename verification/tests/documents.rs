use spray_selector::documents::{
    favorites_json, get_favorite_sprays, load_directory_path, save_directory_path,
};
use spray_selector::json::{json_get_ref, member_position, set_member, JsonValue};

fn s(x: &str) -> JsonValue {
    JsonValue::Str(x.to_string())
}

fn obj(pairs: Vec<(&str, JsonValue)>) -> JsonValue {
    JsonValue::Object(pairs.into_iter().map(|(k, v)| (k.to_string(), v)).collect())
}

#[test]
fn directory_document_shape() {
    assert_eq!(save_directory_path("C:/Steam/tf/logos"), obj(vec![("sprays_path", s("C:/Steam/tf/logos"))]));
}

#[test]
fn directory_document_reads_back() {
    let doc = save_directory_path("/home/u/logos");
    assert_eq!(load_directory_path(&doc), Some("/home/u/logos".to_string()));
}

#[test]
fn directory_missing_or_not_a_string() {
    assert_eq!(load_directory_path(&obj(vec![])), None);
    assert_eq!(load_directory_path(&obj(vec![("sprays_path", JsonValue::Number("3".to_string()))])), None);
    assert_eq!(load_directory_path(&JsonValue::Array(vec![s("x")])), None);
    assert_eq!(load_directory_path(&JsonValue::Null), None);
}

#[test]
fn favorites_on_empty_document() {
    let doc = favorites_json(JsonValue::Null, "/logos", "a.vtf");
    assert_eq!(doc, obj(vec![("favorites", JsonValue::Array(vec![s("/logos/a.vtf")]))]));
}

#[test]
fn favorites_keep_other_members_and_drop_non_strings() {
    let doc = obj(vec![
        ("theme", s("dark")),
        ("favorites", JsonValue::Array(vec![s("/x/b.vtf"), JsonValue::Bool(true), s("/x/c.vtf")])),
        ("count", JsonValue::Number("2".to_string())),
    ]);
    let out = favorites_json(doc, "/logos", "a.vtf");
    assert_eq!(
        out,
        obj(vec![
            ("theme", s("dark")),
            ("favorites", JsonValue::Array(vec![s("/x/b.vtf"), s("/x/c.vtf"), s("/logos/a.vtf")])),
            ("count", JsonValue::Number("2".to_string())),
        ])
    );
}

#[test]
fn favorite_already_listed_is_not_added_again() {
    let doc = obj(vec![("favorites", JsonValue::Array(vec![s("/logos/a.vtf")]))]);
    let once = favorites_json(doc, "/logos", "a.vtf");
    assert_eq!(get_favorite_sprays(&once), vec!["/logos/a.vtf".to_string()]);
    let twice = favorites_json(favorites_json(JsonValue::Null, "/l", "b.vtf"), "/l", "b.vtf");
    assert_eq!(twice, favorites_json(JsonValue::Null, "/l", "b.vtf"));
}

#[test]
fn favorites_not_an_array_start_over() {
    let doc = obj(vec![("favorites", s("oops"))]);
    assert_eq!(get_favorite_sprays(&doc), Vec::<String>::new());
    let out = favorites_json(doc, "/d", "f.vtf");
    assert_eq!(out, obj(vec![("favorites", JsonValue::Array(vec![s("/d/f.vtf")]))]));
}

#[test]
fn favorite_sprays_listed_in_order() {
    let doc = obj(vec![("favorites", JsonValue::Array(vec![s("b"), JsonValue::Null, s("a")]))]);
    assert_eq!(get_favorite_sprays(&doc), vec!["b".to_string(), "a".to_string()]);
    assert_eq!(get_favorite_sprays(&JsonValue::Null), Vec::<String>::new());
}

#[test]
fn get_uses_first_member_of_a_key() {
    let doc = obj(vec![("k", s("first")), ("k", s("second"))]);
    assert_eq!(json_get_ref(&doc, "k"), Some(&s("first")));
    assert_eq!(json_get_ref(&doc, "z"), None);
}

#[test]
fn set_member_replaces_or_appends() {
    let doc = obj(vec![("a", s("1")), ("b", s("2"))]);
    let pairs = set_member(doc, "a", s("9"));
    assert_eq!(JsonValue::Object(pairs), obj(vec![("a", s("9")), ("b", s("2"))]));
    let pairs = set_member(obj(vec![("a", s("1"))]), "c", JsonValue::Null);
    assert_eq!(JsonValue::Object(pairs), obj(vec![("a", s("1")), ("c", JsonValue::Null)]));
    let pairs = vec![("x".to_string(), JsonValue::Null)];
    assert_eq!(member_position(&pairs, "x"), 0);
    assert_eq!(member_position(&pairs, "y"), 1);
}

use spray_selector::documents::{
    favorites_json_text, get_favorite_sprays_text, load_directory_path_text, save_directory_path_text,
};

#[test]
fn folder_file_text_round_trip() {
    let text = save_directory_path_text("C:\\Steam\\tf \"2\"/logos");
    assert_eq!(text, "{\"sprays_path\":\"C:\\\\Steam\\\\tf \\\"2\\\"/logos\"}");
    assert_eq!(load_directory_path_text(&text), Some("C:\\Steam\\tf \"2\"/logos".to_string()));
}

#[test]
fn folder_file_text_that_is_not_json_or_lacks_the_key() {
    assert_eq!(load_directory_path_text("not json"), None);
    assert_eq!(load_directory_path_text("{\"other\":\"x\"}"), None);
    assert_eq!(load_directory_path_text("{\"sprays_path\":7}"), None);
    assert_eq!(load_directory_path_text("{\"sprays_path\":\"/a\",\"x\":[1,{\"y\":null}]}"), Some("/a".to_string()));
}

#[test]
fn favorites_file_text() {
    let first = favorites_json_text(None, "/logos", "a.vtf").unwrap();
    assert_eq!(first, "{\n  \"favorites\": [\n    \"/logos/a.vtf\"\n  ]\n}");
    assert_eq!(get_favorite_sprays_text(&first), vec!["/logos/a.vtf".to_string()]);
    let second = favorites_json_text(Some(&first), "/logos", "b.vtf").unwrap();
    assert_eq!(
        get_favorite_sprays_text(&second),
        vec!["/logos/a.vtf".to_string(), "/logos/b.vtf".to_string()]
    );
    let again = favorites_json_text(Some(&second), "/logos", "b.vtf").unwrap();
    assert_eq!(again, second);
}

#[test]
fn favorites_file_keeps_other_members_and_numbers() {
    let text = "{\"n\": 1.5, \"big\": 12345678901234567890, \"favorites\": [\"x\", 3], \"z\": {\"k\": [true]}}";
    let out = favorites_json_text(Some(text), "/d", "f.vtf").unwrap();
    let v: serde_json::Value = serde_json::from_str(&out).unwrap();
    assert_eq!(v["n"].as_f64(), Some(1.5));
    assert_eq!(v["big"].to_string(), "12345678901234567890");
    assert_eq!(v["z"]["k"][0], serde_json::Value::Bool(true));
    assert_eq!(get_favorite_sprays_text(&out), vec!["x".to_string(), "/d/f.vtf".to_string()]);
}

#[test]
fn favorites_file_that_is_not_an_object() {
    assert_eq!(favorites_json_text(Some("[1, 2]"), "/d", "f.vtf"), None);
    assert_eq!(favorites_json_text(Some("\"s\""), "/d", "f.vtf"), None);
    let from_garbage = favorites_json_text(Some("garbage"), "/d", "f.vtf").unwrap();
    assert_eq!(get_favorite_sprays_text(&from_garbage), vec!["/d/f.vtf".to_string()]);
    let from_null = favorites_json_text(Some("null"), "/d", "f.vtf").unwrap();
    assert_eq!(get_favorite_sprays_text(&from_null), vec!["/d/f.vtf".to_string()]);
    assert_eq!(get_favorite_sprays_text("garbage"), Vec::<String>::new());
}
