//! Planning one wallpaper application: the cache file to use, whether its
//! bytes must be fetched, and the exact commands to run.
//!
//! The application performs the download and runs the commands; everything
//! decided here — the file name, the skip-if-cached rule, the placeholder
//! substitution and the display-mode annotation — is verified.

use vstd::prelude::*;
use crate::text::{
    append_chars, chars_to_string, contains_chars, contains_seq, chars_equal, replace_chars,
    spec_replace, spec_split, spec_trim, split_chars, str_to_chars, trim_chars,
};
use crate::wallhaven::{is_extension_of, wallpaper_filename, join_path, Wallpaper};

verus! {

/// The command template with the file path put in for `%f` and the output
/// name put in for `%m` and for the literal word `monitor_name`.
pub open spec fn spec_substitute(
    template: Seq<char>,
    path: Seq<char>,
    name: Seq<char>,
) -> Seq<char> {
    spec_replace(
        spec_replace(spec_replace(template, "%f"@, path), "%m"@, name),
        "monitor_name"@,
        name,
    )
}

/// Substitutes the file path and output name into the command template.
pub fn substitute_template(template: &Vec<char>, path: &Vec<char>, name: &Vec<char>) -> (r: Vec<
    char,
>)
    ensures
        r@ == spec_substitute(template@, path@, name@),
{
    proof {
        reveal_strlit("%f");
        reveal_strlit("%m");
        reveal_strlit("monitor_name");
    }
    let step1 = replace_chars(template, &str_to_chars("%f"), path);
    let step2 = replace_chars(&step1, &str_to_chars("%m"), name);
    replace_chars(&step2, &str_to_chars("monitor_name"), name)
}

/// Display modes that ask for an annotated path argument.
pub open spec fn mode_needs_annotation(mode: Seq<char>) -> bool {
    mode == "contain"@ || mode == "tile"@
}

/// The command with the display mode embedded: when the mode is one of the
/// two that need it and the command drives the known-compatible backend,
/// every `,/` becomes `,mode:/`; any other command is left alone.
pub open spec fn spec_mode_annotate(cmd: Seq<char>, mode: Seq<char>) -> Seq<char> {
    if mode_needs_annotation(mode) && contains_seq(cmd, "hyprpaper"@) {
        spec_replace(cmd, ",/"@, seq![','] + mode + seq![':', '/'])
    } else {
        cmd
    }
}

/// Embeds the display mode into the command when the backend needs it.
pub fn annotate_mode(cmd: &Vec<char>, mode: &Vec<char>) -> (r: Vec<char>)
    ensures
        r@ == spec_mode_annotate(cmd@, mode@),
{
    proof {
        reveal_strlit(",/");
    }
    let needs = chars_equal(mode, &str_to_chars("contain")) || chars_equal(
        mode,
        &str_to_chars("tile"),
    );
    if needs && contains_chars(cmd, &str_to_chars("hyprpaper")) {
        let mut rep: Vec<char> = Vec::new();
        rep.push(',');
        append_chars(&mut rep, mode);
        rep.push(':');
        rep.push('/');
        proof {
            assert(rep@ =~= seq![','] + mode@ + seq![':', '/']);
        }
        replace_chars(cmd, &str_to_chars(",/"), &rep)
    } else {
        let mut r: Vec<char> = Vec::new();
        append_chars(&mut r, cmd);
        proof {
            assert(r@ =~= cmd@);
        }
        r
    }
}

/// The pieces of a command list cleaned for execution: each piece trimmed,
/// empty pieces dropped, order kept.
pub open spec fn spec_clean(parts: Seq<Seq<char>>) -> Seq<Seq<char>>
    decreases parts.len(),
{
    if parts.len() == 0 {
        Seq::empty()
    } else {
        let t = spec_trim(parts[0]);
        let rest = spec_clean(parts.skip(1));
        if t.len() == 0 {
            rest
        } else {
            seq![t] + rest
        }
    }
}

/// The command segments to run for a full command string: the text cut at
/// every statement separator, trimmed, with empty segments dropped.
pub open spec fn spec_segments(cmd: Seq<char>) -> Seq<Seq<char>> {
    spec_clean(spec_split(cmd, ';', Seq::<char>::empty()))
}

/// Cuts a command string into the segments to execute, in order.
pub fn command_segments(cmd: &Vec<char>) -> (r: Vec<String>)
    ensures
        r@.map_values(|s: String| s@) == spec_segments(cmd@),
{
    let parts = split_chars(cmd, ';');
    let ghost all = parts@.map_values(|v: Vec<char>| v@);
    let mut out: Vec<String> = Vec::new();
    let mut i: usize = 0;
    proof {
        assert(all.skip(0) =~= all);
        assert(out@.map_values(|s: String| s@) =~= Seq::<Seq<char>>::empty());
        assert(Seq::<Seq<char>>::empty() + spec_clean(all) =~= spec_clean(all));
    }
    while i < parts.len()
        invariant
            i <= parts@.len(),
            all == parts@.map_values(|v: Vec<char>| v@),
            spec_clean(all) == out@.map_values(|s: String| s@) + spec_clean(all.skip(i as int)),
        decreases parts@.len() - i,
    {
        let ghost pre = out@.map_values(|s: String| s@);
        proof {
            assert(all.skip(i as int)[0] == all[i as int]);
            assert(all.skip(i as int).skip(1) =~= all.skip(i + 1));
        }
        let t = trim_chars(&parts[i]);
        if t.len() > 0 {
            out.push(chars_to_string(&t));
            proof {
                assert(out@.map_values(|s: String| s@) =~= pre.push(t@));
                assert(pre + (seq![t@] + spec_clean(all.skip(i + 1))) =~= pre.push(t@)
                    + spec_clean(all.skip(i + 1)));
            }
        }
        i = i + 1;
    }
    proof {
        assert(all.skip(i as int) =~= Seq::<Seq<char>>::empty());
        assert(out@.map_values(|s: String| s@) + Seq::<Seq<char>>::empty() =~= out@.map_values(
            |s: String| s@,
        ));
    }
    out
}

/// Everything one apply needs: the cache file, whether to fetch it, and
/// the commands to run.
#[derive(Debug)]
pub struct ApplyPlan {
    /// The absolute path of the cache file, derived from the candidate id
    /// and the download URL's extension.
    pub target_path: String,
    /// Fetch the bytes only when no cache file exists: re-applying a
    /// candidate never downloads twice.
    pub needs_download: bool,
    /// The command segments to run in order, aborting at the first
    /// failure.
    pub commands: Vec<String>,
}

/// Plans one application of a detail-resolved candidate. `dir` is the
/// already-expanded cache directory and `file_exists` says whether the
/// target file is already cached.
pub fn plan_apply(
    wallpaper: &Wallpaper,
    dir: &str,
    file_exists: bool,
    template: &str,
    monitor_name: &str,
    mode: &str,
) -> (r: ApplyPlan)
    ensures
        r.needs_download == !file_exists,
        exists|e: Seq<char>|
            is_extension_of(e, wallpaper.path@) && r.target_path@ == dir@ + seq!['/'] + (
            "wallhaven-"@ + wallpaper.id@ + seq!['.'] + e),
        r.commands@.map_values(|s: String| s@) == spec_segments(
            spec_mode_annotate(
                spec_substitute(template@, r.target_path@, monitor_name@),
                mode@,
            ),
        ),
{
    let filename = wallpaper_filename(wallpaper.id.as_str(), wallpaper.path.as_str());
    let target_path = join_path(dir, filename.as_str());
    let substituted = substitute_template(
        &str_to_chars(template),
        &str_to_chars(target_path.as_str()),
        &str_to_chars(monitor_name),
    );
    let annotated = annotate_mode(&substituted, &str_to_chars(mode));
    let commands = command_segments(&annotated);
    ApplyPlan { target_path, needs_download: !file_exists, commands }
}

/// A download URL determines its extension: the two cases of
/// `is_extension_of` exclude each other and the last-dot witness is
/// unique.
pub proof fn lemma_extension_unique(e1: Seq<char>, e2: Seq<char>, p: Seq<char>)
    requires
        is_extension_of(e1, p),
        is_extension_of(e2, p),
    ensures
        e1 == e2,
{
    if exists|i: int| 0 <= i < p.len() && p[i] == '.' {
        let i1 = choose|i: int|
            0 <= i < p.len() && p[i] == '.' && (forall|j: int| i < j < p.len() ==> p[j] != '.')
                && e1 == p.skip(i + 1);
        let i2 = choose|i: int|
            0 <= i < p.len() && p[i] == '.' && (forall|j: int| i < j < p.len() ==> p[j] != '.')
                && e2 == p.skip(i + 1);
        assert(i1 == i2);
    }
}

/// Applying the same candidate twice plans the same cache file: the
/// target path is a function of the candidate and the cache directory
/// alone, so once the first apply has filled the cache, a later plan (with
/// the file present) carries no download.
pub proof fn lemma_reapply_same_file(
    e1: Seq<char>,
    e2: Seq<char>,
    url_path: Seq<char>,
    id: Seq<char>,
    dir: Seq<char>,
)
    requires
        is_extension_of(e1, url_path),
        is_extension_of(e2, url_path),
    ensures
        dir + seq!['/'] + ("wallhaven-"@ + id + seq!['.'] + e1) == dir + seq!['/'] + (
        "wallhaven-"@ + id + seq!['.'] + e2),
{
    lemma_extension_unique(e1, e2, url_path);
}

} // verus!
