//! Compositor-facing data: monitor descriptors, workspace selection, and the
//! parsing of the active-wallpaper listing.
//!
//! The compositor itself is an external collaborator; the application queries
//! it and passes the resulting plain values (monitor lists, occupied
//! workspace ids, command output text) into the functions here.

use vstd::prelude::*;
use vstd::assert_by_contradiction;
use crate::text::{spec_trim, split_chars, subrange_chars, trim_chars};

verus! {

/// The workspace that is active on a monitor.
#[derive(Debug, Clone)]
pub struct ActiveWorkspace {
    pub id: i64,
}

/// A snapshot of one monitor as the compositor reports it.
#[derive(Debug, Clone)]
pub struct Monitor {
    pub name: String,
    pub width: i32,
    pub height: i32,
    pub focused: bool,
    pub transform: i32,
    pub active_workspace: ActiveWorkspace,
}

impl Monitor {
    /// Rotations that exchange the two axes: 90 and 270 degrees, with or
    /// without a flip.
    pub open spec fn is_rotated(self) -> bool {
        self.transform == 1 || self.transform == 3 || self.transform == 5 || self.transform == 7
    }

    /// The monitor's dimensions as the viewer sees them: width and height
    /// are exchanged exactly when the rotation is 90 or 270 degrees,
    /// flipped or not; all other transforms leave them as reported.
    pub fn get_visual_dimensions(&self) -> (r: (i32, i32))
        ensures
            self.is_rotated() ==> r == (self.height, self.width),
            !self.is_rotated() ==> r == (self.width, self.height),
    {
        match self.transform {
            1 | 3 | 5 | 7 => (self.height, self.width),
            _ => (self.width, self.height),
        }
    }

    /// True when the visual width is at least the visual height, which
    /// selects landscape-oriented search results.
    pub open spec fn is_landscape(self) -> bool {
        if self.is_rotated() {
            self.height >= self.width
        } else {
            self.width >= self.height
        }
    }
}

/// The ratio filter a monitor asks for: `landscape` when the visual width
/// is at least the visual height, `portrait` otherwise.
pub fn aspect_ratio(monitor: &Monitor) -> (r: String)
    ensures
        monitor.is_landscape() ==> r@ == "landscape"@,
        !monitor.is_landscape() ==> r@ == "portrait"@,
{
    let dims = monitor.get_visual_dimensions();
    if dims.0 >= dims.1 {
        "landscape".to_owned()
    } else {
        "portrait".to_owned()
    }
}

/// The descriptor assumed when the compositor cannot be queried: a
/// 1920 by 1080 unrotated monitor with an empty name on workspace 1.
pub fn fallback_monitor() -> (r: Monitor)
    ensures
        r.name@ == Seq::<char>::empty(),
        r.width == 1920,
        r.height == 1080,
        r.focused,
        r.transform == 0,
        r.active_workspace.id == 1,
{
    Monitor {
        name: String::new(),
        width: 1920,
        height: 1080,
        focused: true,
        transform: 0,
        active_workspace: ActiveWorkspace { id: 1 },
    }
}

/// Finds the first focused monitor in a compositor report.
pub fn find_focused(monitors: &Vec<Monitor>) -> (r: Option<usize>)
    ensures
        match r {
            Some(i) => i < monitors@.len() && monitors@[i as int].focused && forall|j: int|
                0 <= j < i ==> !monitors@[j].focused,
            None => forall|j: int| 0 <= j < monitors@.len() ==> !monitors@[j].focused,
        },
{
    let mut i: usize = 0;
    while i < monitors.len()
        invariant
            i <= monitors@.len(),
            forall|j: int| 0 <= j < i ==> !monitors@[j].focused,
        decreases monitors@.len() - i,
    {
        if monitors[i].focused {
            return Some(i);
        }
        i = i + 1;
    }
    None
}

/// Checks whether `v` holds `x`.
pub fn contains_i64(v: &Vec<i64>, x: i64) -> (r: bool)
    ensures
        r == v@.contains(x),
{
    let mut i: usize = 0;
    while i < v.len()
        invariant
            i <= v@.len(),
            forall|j: int| 0 <= j < i ==> v@[j] != x,
        decreases v@.len() - i,
    {
        if v[i] == x {
            return true;
        }
        i = i + 1;
    }
    false
}

/// An interval with more members than a sequence has entries holds some
/// value that the sequence misses.
proof fn lemma_short_seq_misses_some(s: Seq<i64>, lo: int, hi: int)
    requires
        i64::MIN <= lo <= hi <= i64::MAX,
        hi + 1 - lo > s.len(),
    ensures
        exists|w: int| lo <= w <= hi && !s.contains(#[trigger] (w as i64)),
{
    broadcast use vstd::seq_lib::seq_to_set_is_finite;

    assert_by_contradiction!(exists|w: int| lo <= w <= hi && !s.contains(#[trigger] (w as i64)), {
        let t = s.map_values(|x: i64| x as int);
        assert forall|w: int| lo <= w <= hi implies t.to_set().contains(w) by {
            assert(s.contains(w as i64));
            let i = choose|i: int| 0 <= i < s.len() && s[i] == w as i64;
            assert(t[i] == w);
            assert(t.contains(w));
        }
        assert(vstd::set_lib::set_int_range(lo, hi + 1) <= t.to_set());
        vstd::set_lib::lemma_int_range(lo, hi + 1);
        t.lemma_cardinality_of_set();
        vstd::set_lib::lemma_len_subset(vstd::set_lib::set_int_range(lo, hi + 1), t.to_set());
    });
}

/// Scans upward from workspace 10 for the first identifier that no occupied
/// workspace uses; the session hides its previews there.
pub fn find_empty_workspace(occupied: &Vec<i64>) -> (r: i64)
    requires
        occupied@.len() <= 0x7fff_ffff,
    ensures
        r >= 10,
        !occupied@.contains(r),
        forall|w: int| 10 <= w < r ==> occupied@.contains(#[trigger] (w as i64)),
{
    let n: usize = occupied.len();
    let mut id: i64 = 10;
    loop
        invariant
            occupied@.len() == n <= 0x7fff_ffff,
            10 <= id <= 10 + n,
            forall|w: int| 10 <= w < id ==> occupied@.contains(#[trigger] (w as i64)),
        decreases 10 + n - id,
    {
        if !contains_i64(occupied, id) {
            return id;
        }
        proof {
            if id == 10 + n {
                lemma_short_seq_misses_some(occupied@, 10, id as int);
            }
        }
        id = id + 1;
    }
}

/// The prefix of `s` before the first occurrence of `sep`, and the suffix
/// after it; nothing when `sep` does not occur.
pub open spec fn spec_split_once(s: Seq<char>, sep: char) -> Option<(Seq<char>, Seq<char>)>
    decreases s.len(),
{
    if s.len() == 0 {
        None
    } else if s[0] == sep {
        Some((Seq::empty(), s.skip(1)))
    } else {
        match spec_split_once(s.skip(1), sep) {
            None => None,
            Some((a, b)) => Some((seq![s[0]] + a, b)),
        }
    }
}

proof fn lemma_split_once_at(s: Seq<char>, sep: char, i: int)
    requires
        0 <= i < s.len(),
        s[i] == sep,
        forall|j: int| 0 <= j < i ==> s[j] != sep,
    ensures
        spec_split_once(s, sep) == Some((s.take(i), s.skip(i + 1))),
    decreases i,
{
    if i == 0 {
        assert(s.take(0) =~= Seq::<char>::empty());
    } else {
        assert(s.skip(1)[i - 1] == s[i]);
        assert(forall|j: int| 0 <= j < i - 1 ==> s.skip(1)[j] == s[j + 1]);
        lemma_split_once_at(s.skip(1), sep, i - 1);
        assert(seq![s[0]] + s.skip(1).take(i - 1) =~= s.take(i));
        assert(s.skip(1).skip(i - 1 + 1) =~= s.skip(i + 1));
    }
}

proof fn lemma_split_once_none(s: Seq<char>, sep: char)
    requires
        forall|j: int| 0 <= j < s.len() ==> s[j] != sep,
    ensures
        spec_split_once(s, sep) is None,
    decreases s.len(),
{
    if s.len() > 0 {
        assert(forall|j: int| 0 <= j < s.skip(1).len() ==> s.skip(1)[j] == s[j + 1]);
        lemma_split_once_none(s.skip(1), sep);
    }
}

/// Cuts `s` at the first occurrence of `sep`, when there is one.
pub fn split_once_char(s: &Vec<char>, sep: char) -> (r: Option<(Vec<char>, Vec<char>)>)
    ensures
        match r {
            Some(p) => spec_split_once(s@, sep) == Some((p.0@, p.1@)),
            None => spec_split_once(s@, sep) is None,
        },
{
    let mut i: usize = 0;
    while i < s.len()
        invariant
            i <= s@.len(),
            forall|j: int| 0 <= j < i ==> s@[j] != sep,
        decreases s@.len() - i,
    {
        if s[i] == sep {
            let before = subrange_chars(s, 0, i);
            let after = subrange_chars(s, i + 1, s.len());
            proof {
                lemma_split_once_at(s@, sep, i as int);
                assert(s@.take(i as int) =~= s@.subrange(0, i as int));
                assert(s@.skip(i + 1) =~= s@.subrange(i + 1, s@.len() as int));
            }
            return Some((before, after));
        }
        i = i + 1;
    }
    proof {
        lemma_split_once_none(s@, sep);
    }
    None
}

/// The wallpaper path recorded for `name` in a listing whose lines read
/// `monitor = path`: the first line whose trimmed monitor part equals
/// `name` yields its trimmed path part.
pub open spec fn spec_lookup_wallpaper(lines: Seq<Seq<char>>, name: Seq<char>) -> Option<
    Seq<char>,
>
    decreases lines.len(),
{
    if lines.len() == 0 {
        None
    } else {
        match spec_split_once(lines[0], '=') {
            Some((m, p)) => if spec_trim(m) == name {
                Some(spec_trim(p))
            } else {
                spec_lookup_wallpaper(lines.skip(1), name)
            },
            None => spec_lookup_wallpaper(lines.skip(1), name),
        }
    }
}

/// Finds the wallpaper path for monitor `name` in the text of the
/// compositor's active-wallpaper listing.
pub fn lookup_monitor_wallpaper(output: &Vec<char>, name: &Vec<char>) -> (r: Option<String>)
    ensures
        match r {
            Some(p) => spec_lookup_wallpaper(
                crate::text::spec_split(output@, '\n', Seq::<char>::empty()),
                name@,
            ) == Some(p@),
            None => spec_lookup_wallpaper(
                crate::text::spec_split(output@, '\n', Seq::<char>::empty()),
                name@,
            ) is None,
        },
{
    let lines = split_chars(output, '\n');
    let ghost all = lines@.map_values(|v: Vec<char>| v@);
    let mut i: usize = 0;
    proof {
        assert(all.skip(0) =~= all);
    }
    while i < lines.len()
        invariant
            i <= lines@.len(),
            all == lines@.map_values(|v: Vec<char>| v@),
            all == crate::text::spec_split(output@, '\n', Seq::<char>::empty()),
            spec_lookup_wallpaper(all, name@) == spec_lookup_wallpaper(
                all.skip(i as int),
                name@,
            ),
        decreases lines@.len() - i,
    {
        proof {
            assert(all.skip(i as int)[0] == all[i as int]);
            assert(all.skip(i as int).skip(1) =~= all.skip(i + 1));
        }
        match split_once_char(&lines[i], '=') {
            Some(pair) => {
                let mon = trim_chars(&pair.0);
                let path = trim_chars(&pair.1);
                if crate::text::chars_equal(&mon, name) {
                    return Some(crate::text::chars_to_string(&path));
                }
            },
            None => {},
        }
        i = i + 1;
    }
    proof {
        assert(all.skip(i as int) =~= Seq::<Seq<char>>::empty());
    }
    None
}

} // verus!
