//! Configuration: the command template, cache directory, catalog filters
//! and credential, together with the decision logic of the settings menu.
//!
//! Reading and writing the configuration file is the application's job; the
//! functions here only transform configuration values.

use vstd::prelude::*;
use crate::errors::SessionError;
use crate::text::{append_chars, chars_to_string, str_to_chars, subrange_chars};
use crate::ui::SettingsAction;

verus! {

/// The user's configuration.
#[derive(Debug, Clone)]
pub struct Config {
    pub wallpaper_cmd: String,
    pub save_dir: String,
    pub api_key: Option<String>,
    pub username: Option<String>,
    pub categories: String,
    pub purity: String,
    pub sorting: String,
    pub ratios: String,
    pub wallpaper_mode: String,
}

/// The display mode assumed when the configuration names none.
pub fn default_wallpaper_mode() -> (r: String)
    ensures
        r@ == "contain"@,
{
    "contain".to_owned()
}

impl core::default::Default for Config {
    /// The configuration written on first use.
    fn default() -> (r: Config)
        ensures
            r.wallpaper_cmd@ == "hyprctl hyprpaper preload %f; hyprctl hyprpaper wallpaper \"%m,%f\""@,
            r.save_dir@ == "~/Pictures/Wallpapers/Wallhaven"@,
            r.api_key is None,
            r.username is None,
            r.categories@ == "111"@,
            r.purity@ == "100"@,
            r.sorting@ == "hot"@,
            r.ratios@ == "landscape"@,
            r.wallpaper_mode@ == "contain"@,
    {
        Config {
            wallpaper_cmd:
                "hyprctl hyprpaper preload %f; hyprctl hyprpaper wallpaper \"%m,%f\"".to_owned(),
            save_dir: "~/Pictures/Wallpapers/Wallhaven".to_owned(),
            api_key: None,
            username: None,
            categories: "111".to_owned(),
            purity: "100".to_owned(),
            sorting: "hot".to_owned(),
            ratios: "landscape".to_owned(),
            wallpaper_mode: default_wallpaper_mode(),
        }
    }
}

/// Relies on `dirs::home_dir` for the user's home directory; the result
/// depends on the environment, so nothing is promised about it.
#[verifier::external_body]
fn home_directory() -> (r: Option<String>) {
    dirs::home_dir().map(|p| p.to_string_lossy().into_owned())
}

/// `s` with every leading `~/` removed.
pub open spec fn spec_strip_tilde(s: Seq<char>) -> Seq<char>
    decreases s.len(),
{
    if s.len() >= 2 && s[0] == '~' && s[1] == '/' {
        spec_strip_tilde(s.skip(2))
    } else {
        s
    }
}

/// The expansion of `path` against a home directory: a path that starts
/// with `~` becomes the home directory, a separator, and the path with its
/// leading `~/` prefixes removed; everything else is kept as it is, as is
/// every path when no home directory is known.
pub open spec fn spec_expand_path(path: Seq<char>, home: Option<Seq<char>>) -> Seq<char> {
    if path.len() > 0 && path[0] == '~' {
        match home {
            Some(h) => h + seq!['/'] + spec_strip_tilde(path),
            None => path,
        }
    } else {
        path
    }
}

/// Expands a leading `~` in `path` against a given home directory,
/// exactly as [`spec_expand_path`] describes.
pub fn expand_path_with_home(path: &str, home: Option<&str>) -> (r: String)
    ensures
        r@ == spec_expand_path(
            path@,
            (match home {
                Some(h) => Some(h@),
                None => None,
            }),
        ),
{
    let chars = str_to_chars(path);
    if chars.len() > 0 && chars[0] == '~' {
        match home {
            Some(home_str) => {
                let mut out = str_to_chars(home_str);
                out.push('/');
                let ghost head = out@;
                let mut i: usize = 0;
                proof {
                    assert(chars@.skip(0) =~= chars@);
                }
                while chars.len() - i >= 2 && chars[i] == '~' && chars[i + 1] == '/'
                    invariant
                        i <= chars@.len(),
                        spec_strip_tilde(chars@) == spec_strip_tilde(chars@.skip(i as int)),
                    decreases chars@.len() - i,
                {
                    proof {
                        assert(chars@.skip(i as int)[0] == chars@[i as int]);
                        assert(chars@.skip(i as int)[1] == chars@[i + 1]);
                        assert(chars@.skip(i as int).skip(2) =~= chars@.skip(i + 2));
                    }
                    i = i + 2;
                }
                proof {
                    if i < chars@.len() {
                        assert(chars@.skip(i as int)[0] == chars@[i as int]);
                        if i + 1 < chars@.len() {
                            assert(chars@.skip(i as int)[1] == chars@[i + 1]);
                        }
                    }
                    assert(spec_strip_tilde(chars@.skip(i as int)) == chars@.skip(i as int));
                }
                let rest = subrange_chars(&chars, i, chars.len());
                append_chars(&mut out, &rest);
                proof {
                    assert(chars@.skip(i as int) =~= chars@.subrange(
                        i as int,
                        chars@.len() as int,
                    ));
                    assert(out@ =~= home_str@ + seq!['/'] + spec_strip_tilde(chars@));
                }
                chars_to_string(&out)
            },
            None => path.to_owned(),
        }
    } else {
        path.to_owned()
    }
}

/// Expands a leading `~` in `path` to the user's home directory. The home
/// directory comes from the environment; whatever the lookup returned, the
/// result is its expansion by [`expand_path_with_home`].
pub fn expand_path(path: &str) -> (r: String)
    ensures
        exists|h: Option<Seq<char>>| r@ == spec_expand_path(path@, h),
{
    let home = home_directory();
    match home {
        Some(h) => {
            let r = expand_path_with_home(path, Some(h.as_str()));
            proof {
                assert(r@ == spec_expand_path(path@, Some(h@)));
            }
            r
        },
        None => {
            let r = expand_path_with_home(path, None);
            proof {
                assert(r@ == spec_expand_path(path@, None::<Seq<char>>));
            }
            r
        },
    }
}

/// What one settings-menu step does to the configuration: the new
/// configuration, whether it must be persisted, and whether the menu is
/// done.
pub open spec fn spec_settings_step(c: Config, action: SettingsAction, choice: Option<String>)
    -> (Config, bool, bool) {
    match action {
        SettingsAction::Categories => match choice {
            Some(v) => ((Config { categories: v, ..c }), true, false),
            None => (c, false, false),
        },
        SettingsAction::Purity => match choice {
            Some(v) => ((Config { purity: v, ..c }), true, false),
            None => (c, false, false),
        },
        SettingsAction::Sorting => match choice {
            Some(v) => ((Config { sorting: v, ..c }), true, false),
            None => (c, false, false),
        },
        SettingsAction::WallpaperMode => match choice {
            Some(v) => ((Config { wallpaper_mode: v, ..c }), true, false),
            None => (c, false, false),
        },
        SettingsAction::SetApiKey => match choice {
            Some(k) => if k@.len() > 0 {
                ((Config { api_key: Some(k), ..c }), true, false)
            } else {
                (c, false, false)
            },
            None => (c, false, false),
        },
        SettingsAction::Back => (c, false, true),
        SettingsAction::Dismissed => (c, false, true),
    }
}

/// The outcome of one settings-menu step.
#[derive(Debug, Clone, Copy, PartialEq, Eq, Structural)]
pub struct SettingsOutcome {
    /// The configuration changed and must be written back.
    pub persist: bool,
    /// The settings menu is finished.
    pub done: bool,
}

/// Applies one settings-menu action to the configuration: a submenu choice
/// updates the corresponding field and asks for persistence; a dismissed
/// submenu changes nothing; `Back` or a dismissed menu ends the loop.
pub fn handle_settings(config: &mut Config, action: SettingsAction, choice: Option<String>) -> (r:
    SettingsOutcome)
    ensures
        ({
            let (c1, persist, done) = spec_settings_step(*old(config), action, choice);
            *final(config) == c1 && r.persist == persist && r.done == done
        }),
{
    match action {
        SettingsAction::Categories => match choice {
            Some(v) => {
                config.categories = v;
                SettingsOutcome { persist: true, done: false }
            },
            None => SettingsOutcome { persist: false, done: false },
        },
        SettingsAction::Purity => match choice {
            Some(v) => {
                config.purity = v;
                SettingsOutcome { persist: true, done: false }
            },
            None => SettingsOutcome { persist: false, done: false },
        },
        SettingsAction::Sorting => match choice {
            Some(v) => {
                config.sorting = v;
                SettingsOutcome { persist: true, done: false }
            },
            None => SettingsOutcome { persist: false, done: false },
        },
        SettingsAction::WallpaperMode => match choice {
            Some(v) => {
                config.wallpaper_mode = v;
                SettingsOutcome { persist: true, done: false }
            },
            None => SettingsOutcome { persist: false, done: false },
        },
        SettingsAction::SetApiKey => match choice {
            Some(k) => {
                if k.as_str().unicode_len() > 0 {
                    config.api_key = Some(k);
                    SettingsOutcome { persist: true, done: false }
                } else {
                    SettingsOutcome { persist: false, done: false }
                }
            },
            None => SettingsOutcome { persist: false, done: false },
        },
        SettingsAction::Back => SettingsOutcome { persist: false, done: true },
        SettingsAction::Dismissed => SettingsOutcome { persist: false, done: true },
    }
}

/// Where one of the user-name sources may come from, in the order the
/// sources are consulted: the configuration itself, a fresh read of the
/// configuration file, the catalog's account settings, and finally a
/// prompt.
pub open spec fn spec_ensure_username(
    c: Config,
    reloaded: Option<String>,
    fetched: Option<String>,
    prompted: Option<String>,
) -> (Config, Result<(String, bool), SessionError>) {
    match c.username {
        Some(u) => (c, Ok((u, false))),
        None => match reloaded {
            Some(u) => ((Config { username: Some(u), ..c }), Ok((u, false))),
            None => match fetched {
                Some(u) => ((Config { username: Some(u), ..c }), Ok((u, true))),
                None => match prompted {
                    Some(u) => if u@.len() > 0 {
                        ((Config { username: Some(u), ..c }), Ok((u, true)))
                    } else {
                        (c, Err(SessionError::UsernameRequired))
                    },
                    None => (c, Err(SessionError::UsernameRequired)),
                },
            },
        },
    }
}

/// Determines the user name, consulting in order the configuration, a
/// fresh configuration read, the catalog's settings, and the prompt, and
/// stores it in the configuration. The second component of a successful
/// result says whether the configuration must be written back.
pub fn ensure_username(
    config: &mut Config,
    reloaded: Option<String>,
    fetched: Option<String>,
    prompted: Option<String>,
) -> (r: Result<(String, bool), SessionError>)
    ensures
        ({
            let (c1, res) = spec_ensure_username(*old(config), reloaded, fetched, prompted);
            *final(config) == c1 && r == res
        }),
{
    if let Some(u) = &config.username {
        return Ok((u.clone(), false));
    }
    if let Some(u) = reloaded {
        config.username = Some(u.clone());
        return Ok((u, false));
    }
    if let Some(u) = fetched {
        config.username = Some(u.clone());
        return Ok((u, true));
    }
    if let Some(u) = prompted {
        if u.as_str().unicode_len() > 0 {
            config.username = Some(u.clone());
            return Ok((u, true));
        }
    }
    Err(SessionError::UsernameRequired)
}

} // verus!
