//! Picker-UI vocabulary: the intents a menu can yield, the interpretation
//! of a raw menu selection, and the toggling of filter flags.
//!
//! The application runs the actual menu program and hands its output text
//! here; these functions decide what the user meant.

use vstd::prelude::*;
use crate::text::{contains_chars, contains_seq, str_to_chars};

verus! {

/// What the main menu can ask for.
#[derive(Debug)]
pub enum MenuAction {
    Rotate,
    SearchApi,
    SetId,
    Settings,
    Collections,
    OpenCurrent,
    Custom(String),
    Dismissed,
}

/// What the navigation menu inside a browsing session can ask for.
#[derive(Debug, Clone, Copy, PartialEq, Eq, Structural)]
pub enum NavAction {
    Next,
    Prev,
    Random,
    OpenInBrowser,
    SettingsCategory,
    SettingsPurity,
    SettingsSorting,
    Done,
    Cancel,
    Dismissed,
}

/// What the settings menu can ask for.
#[derive(Debug, Clone, Copy, PartialEq, Eq, Structural)]
pub enum SettingsAction {
    Categories,
    Purity,
    Sorting,
    WallpaperMode,
    SetApiKey,
    Back,
    Dismissed,
}

/// Reads a navigation-menu selection. A dismissed menu (`success` false)
/// counts as cancelling; an unrecognized line is a dismissal.
pub fn parse_nav_selection(selection: &str, success: bool) -> (r: NavAction)
    ensures
        !success ==> r is Cancel,
        success ==> r == ({
            let s = selection@;
            if contains_seq(s, "Next"@) {
                NavAction::Next
            } else if contains_seq(s, "Prev"@) {
                NavAction::Prev
            } else if contains_seq(s, "Random"@) {
                NavAction::Random
            } else if contains_seq(s, "Open in Browser"@) {
                NavAction::OpenInBrowser
            } else if contains_seq(s, "Category"@) {
                NavAction::SettingsCategory
            } else if contains_seq(s, "Purity"@) {
                NavAction::SettingsPurity
            } else if contains_seq(s, "Sorting"@) {
                NavAction::SettingsSorting
            } else if contains_seq(s, "Done"@) {
                NavAction::Done
            } else {
                NavAction::Dismissed
            }
        }),
{
    if !success {
        return NavAction::Cancel;
    }
    let s = str_to_chars(selection);
    if contains_chars(&s, &str_to_chars("Next")) {
        NavAction::Next
    } else if contains_chars(&s, &str_to_chars("Prev")) {
        NavAction::Prev
    } else if contains_chars(&s, &str_to_chars("Random")) {
        NavAction::Random
    } else if contains_chars(&s, &str_to_chars("Open in Browser")) {
        NavAction::OpenInBrowser
    } else if contains_chars(&s, &str_to_chars("Category")) {
        NavAction::SettingsCategory
    } else if contains_chars(&s, &str_to_chars("Purity")) {
        NavAction::SettingsPurity
    } else if contains_chars(&s, &str_to_chars("Sorting")) {
        NavAction::SettingsSorting
    } else if contains_chars(&s, &str_to_chars("Done")) {
        NavAction::Done
    } else {
        NavAction::Dismissed
    }
}

/// Reads a preview-menu selection (the short menu shown when one specific
/// wallpaper was set). A dismissed menu counts as cancelling.
pub fn parse_preview_selection(selection: &str, success: bool) -> (r: NavAction)
    ensures
        !success ==> r is Cancel,
        success ==> r == ({
            let s = selection@;
            if contains_seq(s, "Done"@) {
                NavAction::Done
            } else if contains_seq(s, "Cancel"@) {
                NavAction::Cancel
            } else if contains_seq(s, "Open in Browser"@) {
                NavAction::OpenInBrowser
            } else {
                NavAction::Dismissed
            }
        }),
{
    if !success {
        return NavAction::Cancel;
    }
    let s = str_to_chars(selection);
    if contains_chars(&s, &str_to_chars("Done")) {
        NavAction::Done
    } else if contains_chars(&s, &str_to_chars("Cancel")) {
        NavAction::Cancel
    } else if contains_chars(&s, &str_to_chars("Open in Browser")) {
        NavAction::OpenInBrowser
    } else {
        NavAction::Dismissed
    }
}

/// Reads a settings-menu selection.
pub fn parse_settings_selection(selection: &str, success: bool) -> (r: SettingsAction)
    ensures
        !success ==> r is Dismissed,
        success ==> r == ({
            let s = selection@;
            if contains_seq(s, "Categories"@) {
                SettingsAction::Categories
            } else if contains_seq(s, "Purity"@) {
                SettingsAction::Purity
            } else if contains_seq(s, "Sorting"@) {
                SettingsAction::Sorting
            } else if contains_seq(s, "Wallpaper Mode"@) {
                SettingsAction::WallpaperMode
            } else if contains_seq(s, "Set API Key"@) {
                SettingsAction::SetApiKey
            } else if contains_seq(s, "Back"@) {
                SettingsAction::Back
            } else {
                SettingsAction::Dismissed
            }
        }),
{
    if !success {
        return SettingsAction::Dismissed;
    }
    let s = str_to_chars(selection);
    if contains_chars(&s, &str_to_chars("Categories")) {
        SettingsAction::Categories
    } else if contains_chars(&s, &str_to_chars("Purity")) {
        SettingsAction::Purity
    } else if contains_chars(&s, &str_to_chars("Sorting")) {
        SettingsAction::Sorting
    } else if contains_chars(&s, &str_to_chars("Wallpaper Mode")) {
        SettingsAction::WallpaperMode
    } else if contains_chars(&s, &str_to_chars("Set API Key")) {
        SettingsAction::SetApiKey
    } else if contains_chars(&s, &str_to_chars("Back")) {
        SettingsAction::Back
    } else {
        SettingsAction::Dismissed
    }
}

/// Reads a main-menu selection; a line that matches no entry is handed
/// back as free-form input.
pub fn parse_menu_selection(selection: &str, success: bool) -> (r: MenuAction)
    ensures
        !success ==> r is Dismissed,
        success ==> ({
            let s = selection@;
            if contains_seq(s, "Rotate"@) {
                r is Rotate
            } else if contains_seq(s, "Search"@) {
                r is SearchApi
            } else if contains_seq(s, "Collections"@) {
                r is Collections
            } else if contains_seq(s, "Set ID"@) {
                r is SetId
            } else if contains_seq(s, "Settings"@) {
                r is Settings
            } else if contains_seq(s, "Show Current Wallpaper"@) {
                r is OpenCurrent
            } else if s.len() == 0 {
                r is Dismissed
            } else {
                r matches MenuAction::Custom(c) && c@ == s
            }
        }),
{
    if !success {
        return MenuAction::Dismissed;
    }
    let s = str_to_chars(selection);
    if contains_chars(&s, &str_to_chars("Rotate")) {
        MenuAction::Rotate
    } else if contains_chars(&s, &str_to_chars("Search")) {
        MenuAction::SearchApi
    } else if contains_chars(&s, &str_to_chars("Collections")) {
        MenuAction::Collections
    } else if contains_chars(&s, &str_to_chars("Set ID")) {
        MenuAction::SetId
    } else if contains_chars(&s, &str_to_chars("Settings")) {
        MenuAction::Settings
    } else if contains_chars(&s, &str_to_chars("Show Current Wallpaper")) {
        MenuAction::OpenCurrent
    } else if s.len() == 0 {
        MenuAction::Dismissed
    } else {
        MenuAction::Custom(selection.to_owned())
    }
}

/// Three-position flag strings padded on the right with `'0'` up to length
/// three; longer strings are kept as they are.
pub open spec fn spec_pad3(s: Seq<char>) -> Seq<char> {
    if s.len() >= 3 {
        s
    } else if s.len() == 2 {
        s + seq!['0']
    } else if s.len() == 1 {
        s + seq!['0', '0']
    } else {
        seq!['0', '0', '0']
    }
}

/// A flag character inverted: `'1'` becomes `'0'`, anything else `'1'`.
pub open spec fn spec_flip(c: char) -> char {
    if c == '1' {
        '0'
    } else {
        '1'
    }
}

/// Toggles position `idx` of a three-position flag string such as the
/// category or purity selection, padding short strings first.
pub fn toggle_flag(current: &str, idx: usize) -> (r: String)
    requires
        idx < 3,
    ensures
        r@ == spec_pad3(current@).update(idx as int, spec_flip(spec_pad3(current@)[idx as int])),
{
    let mut chars = str_to_chars(current);
    while chars.len() < 3
        invariant
            spec_pad3(current@) == spec_pad3(chars@),
        decreases 3 - chars@.len(),
    {
        let ghost pre = chars@;
        chars.push('0');
        proof {
            if pre.len() == 2 {
                assert(spec_pad3(pre) =~= spec_pad3(chars@));
            } else if pre.len() == 1 {
                assert(spec_pad3(pre) =~= spec_pad3(chars@));
            } else {
                assert(spec_pad3(pre) =~= spec_pad3(chars@));
            }
        }
    }
    let c = chars[idx];
    let flipped: char = if c == '1' {
        '0'
    } else {
        '1'
    };
    chars.set(idx, flipped);
    crate::text::chars_to_string(&chars)
}

} // verus!
