use hyprwallhaven::apply::{command_segments, plan_apply};
use hyprwallhaven::text::str_to_chars;
use hyprwallhaven::wallhaven::Wallpaper;

fn candidate() -> Wallpaper {
    Wallpaper {
        id: "8yx6gd".to_string(),
        short_url: "https://whvn.cc/8yx6gd".to_string(),
        path: "https://w.wallhaven.cc/full/8y/wallhaven-8yx6gd.jpg".to_string(),
    }
}

const TEMPLATE: &str = "hyprctl hyprpaper preload %f; hyprctl hyprpaper wallpaper \"%m,%f\"";

#[test]
fn plan_substitutes_and_annotates() {
    let plan = plan_apply(&candidate(), "/walls", false, TEMPLATE, "DP-1", "contain");
    assert_eq!(plan.target_path, "/walls/wallhaven-8yx6gd.jpg");
    assert!(plan.needs_download);
    assert_eq!(
        plan.commands,
        vec![
            "hyprctl hyprpaper preload /walls/wallhaven-8yx6gd.jpg".to_string(),
            "hyprctl hyprpaper wallpaper \"DP-1,contain:/walls/wallhaven-8yx6gd.jpg\""
                .to_string(),
        ]
    );
}

#[test]
fn plan_leaves_other_modes_unannotated() {
    let plan = plan_apply(&candidate(), "/walls", false, TEMPLATE, "DP-1", "cover");
    assert_eq!(
        plan.commands,
        vec![
            "hyprctl hyprpaper preload /walls/wallhaven-8yx6gd.jpg".to_string(),
            "hyprctl hyprpaper wallpaper \"DP-1,/walls/wallhaven-8yx6gd.jpg\"".to_string(),
        ]
    );
}

#[test]
fn plan_leaves_other_backends_unannotated() {
    let plan = plan_apply(&candidate(), "/walls", false, "swww img %f", "DP-1", "contain");
    assert_eq!(
        plan.commands,
        vec!["swww img /walls/wallhaven-8yx6gd.jpg".to_string()]
    );
}

#[test]
fn plan_substitutes_literal_monitor_name_word() {
    let plan = plan_apply(
        &candidate(),
        "/walls",
        false,
        "setbg monitor_name %f",
        "HDMI-1",
        "fill",
    );
    assert_eq!(
        plan.commands,
        vec!["setbg HDMI-1 /walls/wallhaven-8yx6gd.jpg".to_string()]
    );
}

#[test]
fn second_apply_of_cached_candidate_downloads_nothing() {
    // Idempotence: the first apply computes a target path; a second apply
    // of the same candidate computes the same path, and with the file
    // present it plans no download.
    let first = plan_apply(&candidate(), "/walls", false, TEMPLATE, "DP-1", "contain");
    assert!(first.needs_download);
    let second = plan_apply(&candidate(), "/walls", true, TEMPLATE, "DP-1", "contain");
    assert_eq!(second.target_path, first.target_path);
    assert!(!second.needs_download);
}

#[test]
fn segments_are_trimmed_and_empty_ones_dropped() {
    let segs = command_segments(&str_to_chars("  foo  ; ;bar;; baz qux "));
    assert_eq!(
        segs,
        vec!["foo".to_string(), "bar".to_string(), "baz qux".to_string()]
    );
}

#[test]
fn segments_of_empty_command_are_empty() {
    let segs = command_segments(&str_to_chars("   "));
    assert!(segs.is_empty());
}

#[test]
fn segments_preserve_non_ascii_text() {
    let segs = command_segments(&str_to_chars("notify grüße ; echo π"));
    assert_eq!(
        segs,
        vec!["notify grüße".to_string(), "echo π".to_string()]
    );
}
