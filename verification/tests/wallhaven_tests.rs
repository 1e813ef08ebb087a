use hyprwallhaven::config::Config;
use hyprwallhaven::errors::SessionError;
use hyprwallhaven::wallhaven::{
    build_collection_page_url, build_collections_url, build_info_url, build_search_url,
    build_settings_url, classify_input, extract_id, filename_from_url, full_search_page_url,
    id_from_wallpaper_path, simple_search_page_url, wallpaper_filename, wallpaper_page_url,
    InputKind,
};

fn test_config() -> Config {
    Config {
        wallpaper_cmd: "swww img %f".to_string(),
        save_dir: "/walls".to_string(),
        api_key: None,
        username: None,
        categories: "111".to_string(),
        purity: "100".to_string(),
        sorting: "hot".to_string(),
        ratios: "landscape".to_string(),
        wallpaper_mode: "contain".to_string(),
    }
}

#[test]
fn search_url_without_query_or_key() {
    let c = test_config();
    let url = build_search_url(&c, None, 2, None);
    assert_eq!(
        url,
        "https://wallhaven.cc/api/v1/search?categories=111&purity=100&sorting=hot&ratios=landscape&page=2"
    );
}

#[test]
fn search_url_with_query_key_and_ratio_override() {
    let mut c = test_config();
    c.api_key = Some("k0".to_string());
    let url = build_search_url(&c, Some("mountains"), 13, Some("portrait"));
    assert_eq!(
        url,
        "https://wallhaven.cc/api/v1/search?categories=111&purity=100&sorting=hot&ratios=portrait&page=13&q=mountains&apikey=k0"
    );
}

#[test]
fn info_url_with_and_without_key() {
    let mut c = test_config();
    assert_eq!(
        build_info_url("8yx6gd", &c),
        "https://wallhaven.cc/api/v1/w/8yx6gd"
    );
    c.api_key = Some("k1".to_string());
    assert_eq!(
        build_info_url("8yx6gd", &c),
        "https://wallhaven.cc/api/v1/w/8yx6gd?apikey=k1"
    );
}

#[test]
fn collections_url_requires_key() {
    let mut c = test_config();
    assert_eq!(
        build_collections_url(&c),
        Err(SessionError::CatalogUnauthorized)
    );
    c.api_key = Some("k2".to_string());
    assert_eq!(
        build_collections_url(&c),
        Ok("https://wallhaven.cc/api/v1/collections?apikey=k2".to_string())
    );
}

#[test]
fn settings_url_requires_key() {
    let mut c = test_config();
    assert_eq!(
        build_settings_url(&c),
        Err(SessionError::CatalogUnauthorized)
    );
    c.api_key = Some("k3".to_string());
    assert_eq!(
        build_settings_url(&c),
        Ok("https://wallhaven.cc/api/v1/settings?apikey=k3".to_string())
    );
}

#[test]
fn collection_page_url_is_exact() {
    let mut c = test_config();
    c.api_key = Some("k4".to_string());
    assert_eq!(
        build_collection_page_url("alice", 1047, 3, &c),
        "https://wallhaven.cc/api/v1/collections/alice/1047?page=3&apikey=k4"
    );
    c.api_key = None;
    assert_eq!(
        build_collection_page_url("alice", 0, 1, &c),
        "https://wallhaven.cc/api/v1/collections/alice/0?page=1"
    );
}

#[test]
fn page_urls_are_exact() {
    assert_eq!(
        wallpaper_page_url("8yx6gd"),
        "https://wallhaven.cc/w/8yx6gd"
    );
    assert_eq!(
        simple_search_page_url("mountains"),
        "https://wallhaven.cc/search?q=mountains"
    );
    let c = test_config();
    assert_eq!(
        full_search_page_url("mountains", &c, "portrait"),
        "https://wallhaven.cc/search?q=mountains&categories=111&purity=100&sorting=hot&ratios=portrait"
    );
}

#[test]
fn filename_uses_extension_of_download_url() {
    assert_eq!(
        wallpaper_filename("8yx6gd", "https://w.wallhaven.cc/full/8y/wallhaven-8yx6gd.png"),
        "wallhaven-8yx6gd.png"
    );
}

#[test]
fn filename_defaults_to_jpg_without_extension() {
    assert_eq!(
        wallpaper_filename("8yx6gd", "no-dot-anywhere"),
        "wallhaven-8yx6gd.jpg"
    );
}

#[test]
fn direct_filename_takes_last_segment() {
    assert_eq!(
        filename_from_url("https://example.org/a/b/picture.webp"),
        "picture.webp"
    );
    assert_eq!(filename_from_url("picture.webp"), "picture.webp");
    assert_eq!(filename_from_url("https://example.org/dir/"), "wallpaper.jpg");
}

#[test]
fn extract_id_from_catalog_url() {
    assert_eq!(extract_id("https://wallhaven.cc/w/8yx6gd"), "8yx6gd");
    assert_eq!(extract_id("wallhaven.cc/w/q2j3kl"), "q2j3kl");
    assert_eq!(extract_id("8yx6gd"), "8yx6gd");
}

#[test]
fn classify_catalog_url() {
    match classify_input("https://wallhaven.cc/w/8yx6gd") {
        InputKind::CatalogUrl(id) => assert_eq!(id, "8yx6gd"),
        other => panic!("expected a catalog URL, got {:?}", other),
    }
}

#[test]
fn classify_six_alphanumerics_as_possible_id() {
    // "flower" is six alphanumerics too: the shape is a heuristic and such
    // input is only probed against the catalog.
    assert!(matches!(classify_input("8yx6gd"), InputKind::PossibleId));
    assert!(matches!(classify_input("flower"), InputKind::PossibleId));
}

#[test]
fn classify_direct_image_urls_case_insensitively() {
    assert!(matches!(
        classify_input("https://example.org/p.jpg"),
        InputKind::DirectImage
    ));
    assert!(matches!(
        classify_input("http://example.org/p.JPEG"),
        InputKind::DirectImage
    ));
    assert!(matches!(
        classify_input("https://example.org/p.WebP"),
        InputKind::DirectImage
    ));
}

#[test]
fn classify_everything_else_as_search() {
    assert!(matches!(
        classify_input("mountain lakes"),
        InputKind::SearchQuery
    ));
    assert!(matches!(
        classify_input("https://example.org/page.html"),
        InputKind::SearchQuery
    ));
    assert!(matches!(classify_input("seven77"), InputKind::SearchQuery));
}

#[test]
fn id_read_back_from_applied_path() {
    assert_eq!(
        id_from_wallpaper_path("/home/u/walls/wallhaven-8yx6gd.png"),
        Some("8yx6gd".to_string())
    );
    assert_eq!(
        id_from_wallpaper_path("wallhaven-q2j3kl.jpg"),
        Some("q2j3kl".to_string())
    );
    assert_eq!(id_from_wallpaper_path("/home/u/walls/other.png"), None);
    assert_eq!(id_from_wallpaper_path("/home/u/walls/wallhaven-nodot"), None);
}
