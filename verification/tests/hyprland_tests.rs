use hyprwallhaven::hyprland::{
    aspect_ratio, fallback_monitor, find_empty_workspace, find_focused, lookup_monitor_wallpaper,
    ActiveWorkspace, Monitor,
};
use hyprwallhaven::text::str_to_chars;

fn monitor(transform: i32) -> Monitor {
    Monitor {
        name: "DP-1".to_string(),
        width: 1920,
        height: 1080,
        focused: true,
        transform,
        active_workspace: ActiveWorkspace { id: 3 },
    }
}

#[test]
fn rotated_transforms_swap_dimensions() {
    // 90 and 270 degrees, flipped or not, exchange width and height.
    for t in [1, 3, 5, 7] {
        assert_eq!(monitor(t).get_visual_dimensions(), (1080, 1920));
    }
}

#[test]
fn unrotated_transforms_keep_dimensions() {
    // 0 and 180 degrees, flipped or not, keep the reported dimensions.
    for t in [0, 2, 4, 6] {
        assert_eq!(monitor(t).get_visual_dimensions(), (1920, 1080));
    }
}

#[test]
fn aspect_follows_visual_dimensions() {
    assert_eq!(aspect_ratio(&monitor(0)), "landscape");
    assert_eq!(aspect_ratio(&monitor(1)), "portrait");
}

#[test]
fn fallback_is_full_hd_unrotated() {
    let m = fallback_monitor();
    assert_eq!(m.name, "");
    assert_eq!(m.width, 1920);
    assert_eq!(m.height, 1080);
    assert_eq!(m.transform, 0);
    assert!(m.focused);
    assert_eq!(m.active_workspace.id, 1);
    assert_eq!(aspect_ratio(&m), "landscape");
}

#[test]
fn first_focused_monitor_is_found() {
    let mut a = monitor(0);
    a.focused = false;
    let b = monitor(0);
    let mut c = monitor(0);
    c.name = "HDMI-1".to_string();
    let list = vec![a, b, c];
    assert_eq!(find_focused(&list), Some(1));
}

#[test]
fn no_focused_monitor_yields_none() {
    let mut a = monitor(0);
    a.focused = false;
    let list = vec![a];
    assert_eq!(find_focused(&list), None);
    assert_eq!(find_focused(&Vec::new()), None);
}

#[test]
fn empty_workspace_scan_starts_at_ten() {
    assert_eq!(find_empty_workspace(&vec![]), 10);
    assert_eq!(find_empty_workspace(&vec![1, 2, 3]), 10);
}

#[test]
fn empty_workspace_scan_skips_occupied_ids() {
    assert_eq!(find_empty_workspace(&vec![10, 11, 12]), 13);
    assert_eq!(find_empty_workspace(&vec![10, 12]), 11);
    assert_eq!(find_empty_workspace(&vec![12, 10, 11, 2]), 13);
}

#[test]
fn listing_lookup_finds_monitor_line() {
    let out = str_to_chars("DP-1 = /walls/a.png\nHDMI-1 = /walls/b.png\n");
    let got = lookup_monitor_wallpaper(&out, &str_to_chars("HDMI-1"));
    assert_eq!(got, Some("/walls/b.png".to_string()));
}

#[test]
fn listing_lookup_takes_first_matching_line() {
    let out = str_to_chars("DP-1 = /walls/a.png\nDP-1 = /walls/b.png\n");
    let got = lookup_monitor_wallpaper(&out, &str_to_chars("DP-1"));
    assert_eq!(got, Some("/walls/a.png".to_string()));
}

#[test]
fn listing_lookup_misses_unknown_monitor() {
    let out = str_to_chars("DP-1 = /walls/a.png\n");
    assert!(lookup_monitor_wallpaper(&out, &str_to_chars("eDP-1")).is_none());
    assert!(lookup_monitor_wallpaper(&str_to_chars("garbage"), &str_to_chars("DP-1")).is_none());
}
