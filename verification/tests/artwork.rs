use musicbrainz_cuesheet::artwork::{
    extension_of, image_file_stem, plan_downloads, response_action, CoverArt, CoverArtImage,
    ResponseAction, COVER_ART_PATH_COMPONENT, DOWNLOAD_PAUSE_SECONDS,
};

fn image(url: &str, types: &[&str]) -> CoverArtImage {
    CoverArtImage { url: url.to_string(), types: types.iter().map(|t| t.to_string()).collect() }
}

fn saved_extension(action: ResponseAction) -> Option<String> {
    match action {
        ResponseAction::Save { extension } => extension,
        ResponseAction::Skip => panic!("skipped"),
    }
}

#[test]
fn the_cover_art_is_named_cover() {
    assert_eq!(COVER_ART_PATH_COMPONENT, "Cover");
    assert_eq!(DOWNLOAD_PAUSE_SECONDS, 1);
}

#[test]
fn a_single_address_is_one_download_without_a_directory() {
    let plan = plan_downloads(&CoverArt::Url("https://example.org/a/front.jpg".to_string()));
    assert_eq!(plan.directory, None);
    assert_eq!(plan.downloads.len(), 1);
    assert_eq!(plan.downloads[0].url, "https://example.org/a/front.jpg");
    assert_eq!(plan.downloads[0].file_stem, "Cover");
    assert_eq!(plan.downloads[0].pause_seconds, 0);
}

#[test]
fn listed_images_are_downloaded_in_order_with_a_pause_after_each() {
    let plan = plan_downloads(&CoverArt::Images(vec![
        image("https://example.org/1.jpg", &["Front"]),
        image("https://example.org/2.png", &["Back", "Spine"]),
        image("https://example.org/3.jpg", &[]),
    ]));
    assert_eq!(plan.directory, Some("Cover".to_string()));
    assert_eq!(plan.downloads.len(), 3);
    assert_eq!(plan.downloads[0].url, "https://example.org/1.jpg");
    assert_eq!(plan.downloads[0].file_stem, "Front");
    assert_eq!(plan.downloads[1].url, "https://example.org/2.png");
    assert_eq!(plan.downloads[1].file_stem, "Back_Spine");
    assert_eq!(plan.downloads[2].url, "https://example.org/3.jpg");
    assert_eq!(plan.downloads[2].file_stem, "");
    for download in &plan.downloads {
        assert_eq!(download.pause_seconds, 1);
    }
}

#[test]
fn an_empty_list_needs_the_directory_and_nothing_else() {
    let plan = plan_downloads(&CoverArt::Images(vec![]));
    assert_eq!(plan.directory, Some(COVER_ART_PATH_COMPONENT.to_string()));
    assert!(plan.downloads.is_empty());
}

#[test]
fn type_tags_are_joined_by_underscores() {
    let tags = |names: &[&str]| names.iter().map(|t| t.to_string()).collect::<Vec<String>>();
    assert_eq!(image_file_stem(&tags(&[])), "");
    assert_eq!(image_file_stem(&tags(&["Front"])), "Front");
    assert_eq!(image_file_stem(&tags(&["Booklet", "Raw", "Other"])), "Booklet_Raw_Other");
}

#[test]
fn the_extension_follows_the_last_dot_of_the_final_segment() {
    assert_eq!(extension_of("/release/76df3287/829521842.jpg"), Some("jpg".to_string()));
    assert_eq!(extension_of("/a/b.tar.gz"), Some("gz".to_string()));
    assert_eq!(extension_of("front.PNG"), Some("PNG".to_string()));
    assert_eq!(extension_of("/a.b/c.d.e"), Some("e".to_string()));
    assert_eq!(extension_of("/a/name."), Some(String::new()));
    assert_eq!(extension_of("/a/.hidden.txt"), Some("txt".to_string()));
    assert_eq!(extension_of("/a/..."), Some(String::new()));
    assert_eq!(extension_of("/\u{e9}t\u{e9}/\u{e7}a.\u{fc}ber"), Some("\u{fc}ber".to_string()));
}

#[test]
fn some_paths_show_no_extension() {
    assert_eq!(extension_of(""), None);
    assert_eq!(extension_of("/"), None);
    assert_eq!(extension_of("/a/b"), None);
    assert_eq!(extension_of("/a.b/c"), None);
    assert_eq!(extension_of("/a/.hidden"), None);
    assert_eq!(extension_of("/a/.."), None);
    assert_eq!(extension_of(".."), None);
    assert_eq!(extension_of("/a/."), None);
    assert_eq!(extension_of("/a/b.jpg/"), None);
}

#[test]
fn the_extension_agrees_with_the_standard_library_on_plain_file_paths() {
    for path in [
        "/release/1/2.jpg",
        "/a/b.tar.gz",
        "/a/b",
        "/a/.hidden",
        "/a/.hidden.txt",
        "/a/..",
        "x.y",
        "/a.b/c",
        "/a/name.",
        "/a/...",
        "",
    ] {
        let expected = std::path::Path::new(path)
            .extension()
            .map(|e| e.to_string_lossy().into_owned());
        assert_eq!(extension_of(path), expected, "{}", path);
    }
}

#[test]
fn a_successful_response_is_saved_under_its_extension() {
    assert_eq!(saved_extension(response_action(true, "/img/1.jpg")), Some("jpg".to_string()));
    assert_eq!(saved_extension(response_action(true, "/img/1")), None);
}

#[test]
fn a_failed_response_is_skipped() {
    assert!(matches!(response_action(false, "/img/1.jpg"), ResponseAction::Skip));
    assert!(matches!(response_action(false, ""), ResponseAction::Skip));
}
