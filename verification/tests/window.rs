use spray_selector::profiles::Gamepaths;
use spray_selector::preview::{preview_from_image, PREVIEW_SIDE};
use spray_selector::window::{favorite_label, Panel, UiAction, UiEvent, SSS};

fn fresh() -> SSS {
    SSS::new("/logos".to_string(), vec![Gamepaths::new("default".to_string(), String::new())])
}

#[test]
fn new_window_is_closed_and_empty() {
    let s = fresh();
    assert_eq!(s.directory_path, "/logos");
    assert_eq!(s.selected_file, None);
    assert!(!s.show_profiles && !s.show_favorites && !s.show_gallery && !s.show_about);
    assert_eq!(s.new_profile_game, None);
}

#[test]
fn toggling_twice_restores() {
    let mut s = fresh();
    assert_eq!(s.step(UiEvent::TogglePanel(Panel::Gallery)), UiAction::Nothing);
    assert!(s.show_gallery && s.is_open(&Panel::Gallery));
    assert!(!s.show_about);
    s.step(UiEvent::TogglePanel(Panel::Gallery));
    assert_eq!(s, fresh());
}

#[test]
fn closing_a_window() {
    let mut s = fresh();
    s.step(UiEvent::TogglePanel(Panel::Favorites));
    s.step(UiEvent::ClosePanel(Panel::Favorites));
    assert!(!s.show_favorites);
    s.step(UiEvent::ClosePanel(Panel::Favorites));
    assert!(!s.show_favorites);
}

#[test]
fn editing_the_folder_saves_it() {
    let mut s = fresh();
    let a = s.step(UiEvent::DirectoryEdited("/new".to_string()));
    assert_eq!(a, UiAction::SaveDirectory("/new".to_string()));
    assert_eq!(s.directory_path, "/new");
}

#[test]
fn click_then_set_spray() {
    let mut s = fresh();
    assert_eq!(s.step(UiEvent::SetSprayClicked), UiAction::Nothing);
    let a = s.step(UiEvent::FileClicked("cat.vtf".to_string()));
    assert_eq!(a, UiAction::LoadPreview("/logos/cat.vtf".to_string()));
    assert_eq!(s.selected_file, Some("cat.vtf".to_string()));
    let a = s.step(UiEvent::SetSprayClicked);
    assert_eq!(
        a,
        UiAction::SetSpray {
            selected_file: "cat.vtf".to_string(),
            directory_path: "/logos".to_string(),
            truepath: None
        }
    );
}

#[test]
fn right_click_adds_favorite() {
    let mut s = fresh();
    let a = s.step(UiEvent::FileRightClicked("dog.vtf".to_string()));
    assert_eq!(
        a,
        UiAction::AddFavorite { directory_path: "/logos".to_string(), selected_file: "dog.vtf".to_string() }
    );
    assert_eq!(s, fresh());
}

#[test]
fn gallery_click_selects_and_shows_cached_picture() {
    let mut s = fresh();
    let a = s.step(UiEvent::GalleryClicked("g.vtf".to_string()));
    assert_eq!(a, UiAction::ShowGalleryPreview("/logos/g.vtf".to_string()));
    assert_eq!(s.selected_file, Some("g.vtf".to_string()));
}

#[test]
fn favorite_is_chosen_by_file_name() {
    let mut s = fresh();
    let a = s.select_favorite("/other/dir/fav.vtf".to_string());
    assert_eq!(a, UiAction::LoadPreview("/other/dir/fav.vtf".to_string()));
    assert_eq!(s.selected_file, Some("fav.vtf".to_string()));
    assert_eq!(s.truepath, Some("/other/dir/fav.vtf".to_string()));
    let a = s.step(UiEvent::SetSprayClicked);
    assert_eq!(
        a,
        UiAction::SetSpray {
            selected_file: "fav.vtf".to_string(),
            directory_path: "/logos".to_string(),
            truepath: Some("/other/dir/fav.vtf".to_string())
        }
    );
}

#[test]
fn favorite_without_file_name_is_chosen_by_path() {
    let mut s = fresh();
    s.select_favorite_named("/a/..".to_string(), None);
    assert_eq!(s.selected_file, Some("/a/..".to_string()));
    let mut t = fresh();
    t.select_favorite("/a/..".to_string());
    assert_eq!(t.selected_file, Some("/a/..".to_string()));
}

#[test]
fn profile_form_flow() {
    let mut s = fresh();
    s.step(UiEvent::NewProfileGameEdited("ignored".to_string()));
    assert_eq!(s.new_profile_game, None);
    assert_eq!(s.step(UiEvent::SaveProfileClicked), UiAction::Nothing);
    s.step(UiEvent::AddProfileClicked);
    assert_eq!(s.new_profile_game, Some(String::new()));
    assert_eq!(s.new_profile_path, Some(String::new()));
    s.step(UiEvent::NewProfileGameEdited("tf2".to_string()));
    s.step(UiEvent::NewProfilePathEdited("/tf".to_string()));
    let a = s.step(UiEvent::SaveProfileClicked);
    assert_eq!(a, UiAction::SaveProfile { gamename: "tf2".to_string(), sprays_path: "/tf".to_string() });
    assert_eq!(s.new_profile_game, Some("tf2".to_string()));
    let reloaded = vec![
        Gamepaths::new("default".to_string(), String::new()),
        Gamepaths::new("tf2".to_string(), "/tf".to_string()),
    ];
    s.step(UiEvent::ProfilesReloaded(reloaded));
    assert_eq!(s.profiles.len(), 2);
    assert_eq!(s.step(UiEvent::ProfileClicked("tf2".to_string())), UiAction::LoadProfile("tf2".to_string()));
}

#[test]
fn preview_is_scaled_to_square() {
    let img = image::DynamicImage::new_rgb8(4, 2);
    let p = preview_from_image(&img);
    assert_eq!(p.width, PREVIEW_SIDE);
    assert_eq!(p.height, 360);
    assert_eq!(p.rgba.len(), 360 * 360 * 4);
    assert!(p.rgba.chunks(4).all(|px| px == [0, 0, 0, 255]));
}

#[test]
fn preview_of_empty_picture() {
    let img = image::DynamicImage::new_rgba8(0, 0);
    let p = preview_from_image(&img);
    assert_eq!((p.width, p.height), (360, 360));
    assert_eq!(p.rgba.len(), 360 * 360 * 4);
}

#[test]
fn favorite_labels_are_file_names() {
    assert_eq!(favorite_label("/games/tf/logos/cat.vtf"), "cat.vtf");
    assert_eq!(favorite_label("logos/dog.vtf"), "dog.vtf");
    assert_eq!(favorite_label("/a/.."), "/a/..");
}

#[test]
fn preview_samples_are_the_triangle_scaled_picture() {
    let mut img = image::RgbaImage::new(2, 1);
    img.put_pixel(0, 0, image::Rgba([255, 0, 0, 255]));
    img.put_pixel(1, 0, image::Rgba([0, 0, 255, 255]));
    let img = image::DynamicImage::ImageRgba8(img);
    let expected = img
        .resize_exact(360, 360, image::imageops::FilterType::Triangle)
        .to_rgba8()
        .into_raw();
    assert_eq!(preview_from_image(&img).rgba, expected);
}
