//! The session navigator: the state machine behind one interactive
//! browsing session.
//!
//! The machine never touches the compositor, the catalog or the disk. The
//! application gathers what a transition needs (the fetched page, the
//! user's intent), calls [`session_init`] or [`SessionState::step`], and
//! then performs the returned [`Effect`]s in order. Every transition is
//! pinned down by [`step_rel`], and the rollback and isolation guarantees
//! are proved over that relation.

use vstd::prelude::*;
use crate::errors::SessionError;
use crate::hyprland::find_empty_workspace;
use crate::wallhaven::Wallpaper;

verus! {

/// Where a session stands.
#[derive(Debug, Clone, Copy, PartialEq, Eq, Structural)]
pub enum SessionStatus {
    /// The navigation loop is running.
    Browsing,
    /// The user confirmed: the applied wallpaper stays.
    ExitedConfirmed,
    /// The user cancelled: the original wallpaper is re-applied.
    ExitedCancelled,
    /// The user handed the candidate to an external viewer.
    ExitedExternal,
    /// The initial fetch found nothing; the session never started
    /// browsing.
    ExitedNoResults,
}

/// What the application must do after a transition, in order.
#[derive(Debug, Clone, PartialEq, Eq)]
pub enum Effect {
    /// Switch the compositor to this workspace.
    SwitchWorkspace(i64),
    /// Resolve, download (unless cached) and apply the candidate at the
    /// session's cursor, then record it.
    ApplyCurrent,
    /// Re-apply this path to undo the session's changes, then record it.
    RestoreWallpaper(String),
    /// Hand the current candidate to an external viewer.
    OpenExternal,
}

/// What happened at the suspension point: the user's intent, together with
/// whatever fetching it required.
#[derive(Debug)]
pub enum SessionEvent {
    /// Advance the cursor. When the cursor was at the fetched tail, the
    /// application fetched one more page first: `Some` carries it (empty
    /// on exhaustion), `None` says the fetch failed.
    Next { fetched: Option<Vec<Wallpaper>> },
    /// Step back; no backward pagination.
    Prev,
    /// Jump to a uniformly random candidate; repeats allowed.
    Random,
    /// A filter sub-choice was offered. `None`: nothing changed. `Some`:
    /// the filters changed and this is the fresh first-page fetch.
    ChangeFilter { refetch: Option<Result<Vec<Wallpaper>, SessionError>> },
    /// Leave for an external viewer; what was applied stays applied.
    OpenExternally,
    /// Keep the applied wallpaper and end the session.
    Confirm,
    /// Undo the session and end it; a dismissed menu counts as this.
    Cancel,
}

/// One session's transient state.
#[derive(Debug)]
pub struct SessionState {
    /// The workspace the user was on; restored on every exit.
    pub original_workspace_id: i64,
    /// The wallpaper applied before the session, when it could be read.
    pub original_wallpaper: Option<String>,
    /// The unoccupied workspace the previews are shown on.
    pub isolation_workspace_id: i64,
    /// The machine's model of the compositor's current workspace.
    pub current_workspace_id: i64,
    /// The fetched candidates, extended by pagination, replaced on filter
    /// change.
    pub wallpapers: Vec<Wallpaper>,
    /// The page the tail of `wallpapers` came from.
    pub current_page: u32,
    /// The candidate being shown.
    pub cursor: usize,
    /// Pick fresh cursors at random (the rotate flow) instead of starting
    /// at the head (the search flow).
    pub randomize: bool,
    /// Where the session stands.
    pub status: SessionStatus,
}

impl SessionState {
    /// The session has ended; no transition applies any more.
    pub open spec fn is_terminal(self) -> bool {
        !(self.status is Browsing)
    }

    /// What every reachable session state satisfies: while browsing the
    /// cursor is in bounds and the previews sit on the isolation
    /// workspace; once ended, the original workspace is current again.
    pub open spec fn wf(self) -> bool {
        &&& (self.status is Browsing ==> self.cursor < self.wallpapers@.len())
        &&& (self.status is Browsing ==> self.current_workspace_id
            == self.isolation_workspace_id)
        &&& (self.is_terminal() ==> self.current_workspace_id == self.original_workspace_id)
    }

    /// The candidate the session is showing.
    pub fn current(&self) -> (r: &Wallpaper)
        requires
            self.wf(),
            self.status is Browsing,
        ensures
            *r == self.wallpapers@[self.cursor as int],
    {
        &self.wallpapers[self.cursor]
    }
}

/// Relies on `rand::random_range` over `0..n`: the result lies in the
/// range, and the call panics only on an empty range, which the
/// precondition excludes.
#[verifier::external_body]
fn random_index(n: usize) -> (r: usize)
    requires
        n >= 1,
    ensures
        r < n,
{
    rand::random_range(0..n)
}

/// Draws a page number between 1 and `max`, for seeding a session with
/// some variety.
pub fn random_page_up_to(max: u32) -> (r: u32)
    requires
        max >= 1,
    ensures
        1 <= r <= max,
{
    let i = random_index(max as usize);
    (i as u32) + 1
}

/// Starts a session from what the application gathered: the workspace and
/// wallpaper to restore later, the initial fetch, the occupied workspaces,
/// and the page the fetch used.
///
/// A failed fetch ends the session at once with that error and asks for
/// nothing — in particular, an authorization failure causes no workspace
/// switch. An empty result ends the session at once with a no-results
/// status and equally asks for nothing. Otherwise the session enters the
/// first free isolation workspace at or above 10 and applies its first
/// candidate: the head, or a random one when `randomize` is set.
pub fn session_init(
    original_workspace_id: i64,
    original_wallpaper: Option<String>,
    fetch: Result<Vec<Wallpaper>, SessionError>,
    occupied: &Vec<i64>,
    page: u32,
    randomize: bool,
) -> (r: Result<(SessionState, Vec<Effect>), SessionError>)
    requires
        occupied@.len() <= 0x7fff_ffff,
    ensures
        match r {
            Err(e) => fetch matches Err(e0) && e == e0,
            Ok(pair) => {
                let (s, eff) = pair;
                &&& fetch matches Ok(items)
                &&& s.wf()
                &&& s.original_workspace_id == original_workspace_id
                &&& s.original_wallpaper == original_wallpaper
                &&& s.current_page == page
                &&& s.randomize == randomize
                &&& if items@.len() == 0 {
                    &&& s.status is ExitedNoResults
                    &&& s.current_workspace_id == original_workspace_id
                    &&& eff@ == Seq::<Effect>::empty()
                } else {
                    &&& s.status is Browsing
                    &&& s.wallpapers@ == items@
                    &&& s.cursor < items@.len()
                    &&& (!randomize ==> s.cursor == 0)
                    &&& s.isolation_workspace_id >= 10
                    &&& !occupied@.contains(s.isolation_workspace_id)
                    &&& forall|w: int|
                        10 <= w < s.isolation_workspace_id ==> occupied@.contains(
                            #[trigger] (w as i64),
                        )
                    &&& s.current_workspace_id == s.isolation_workspace_id
                    &&& eff@ == seq![
                        Effect::SwitchWorkspace(s.isolation_workspace_id),
                        Effect::ApplyCurrent,
                    ]
                }
            },
        },
{
    match fetch {
        Err(e) => Err(e),
        Ok(items) => {
            if items.len() == 0 {
                let s = SessionState {
                    original_workspace_id,
                    original_wallpaper,
                    isolation_workspace_id: original_workspace_id,
                    current_workspace_id: original_workspace_id,
                    wallpapers: items,
                    current_page: page,
                    cursor: 0,
                    randomize,
                    status: SessionStatus::ExitedNoResults,
                };
                let eff: Vec<Effect> = Vec::new();
                proof {
                    assert(eff@ =~= Seq::<Effect>::empty());
                }
                Ok((s, eff))
            } else {
                let iso = find_empty_workspace(occupied);
                let cursor: usize = if randomize {
                    random_index(items.len())
                } else {
                    0
                };
                let s = SessionState {
                    original_workspace_id,
                    original_wallpaper,
                    isolation_workspace_id: iso,
                    current_workspace_id: iso,
                    wallpapers: items,
                    current_page: page,
                    cursor,
                    randomize,
                    status: SessionStatus::Browsing,
                };
                let mut eff: Vec<Effect> = Vec::new();
                eff.push(Effect::SwitchWorkspace(iso));
                eff.push(Effect::ApplyCurrent);
                proof {
                    assert(eff@ =~= seq![
                        Effect::SwitchWorkspace(iso),
                        Effect::ApplyCurrent,
                    ]);
                }
                Ok((s, eff))
            }
        },
    }
}

/// The candidate set, page and cursor are untouched.
pub open spec fn candidates_unchanged(pre: SessionState, post: SessionState) -> bool {
    &&& post.wallpapers@ == pre.wallpapers@
    &&& post.current_page == pre.current_page
    &&& post.cursor == pre.cursor
}

/// The transition relation of one browsing step: how the state after a
/// step and the effects it asks for relate to the state before it.
pub open spec fn step_rel(
    pre: SessionState,
    event: SessionEvent,
    post: SessionState,
    eff: Seq<Effect>,
) -> bool {
    &&& post.original_workspace_id == pre.original_workspace_id
    &&& post.original_wallpaper == pre.original_wallpaper
    &&& post.isolation_workspace_id == pre.isolation_workspace_id
    &&& post.randomize == pre.randomize
    &&& match event {
        SessionEvent::Next { fetched } => {
            &&& post.status is Browsing
            &&& post.current_workspace_id == pre.current_workspace_id
            &&& eff == seq![Effect::ApplyCurrent]
            &&& if pre.cursor + 1 < pre.wallpapers@.len() {
                &&& post.wallpapers@ == pre.wallpapers@
                &&& post.current_page == pre.current_page
                &&& post.cursor == pre.cursor + 1
            } else {
                match fetched {
                    Some(batch) => if batch@.len() > 0 {
                        &&& post.wallpapers@ == pre.wallpapers@ + batch@
                        &&& post.current_page as int == (if pre.current_page < u32::MAX {
                            pre.current_page + 1
                        } else {
                            u32::MAX as int
                        })
                        &&& post.cursor == pre.cursor + 1
                    } else {
                        &&& post.wallpapers@ == pre.wallpapers@
                        &&& post.current_page == pre.current_page
                        &&& post.cursor == 0
                    },
                    None => {
                        &&& post.wallpapers@ == pre.wallpapers@
                        &&& post.current_page == pre.current_page
                        &&& post.cursor == 0
                    },
                }
            }
        },
        SessionEvent::Prev => {
            &&& post.status is Browsing
            &&& post.current_workspace_id == pre.current_workspace_id
            &&& post.wallpapers@ == pre.wallpapers@
            &&& post.current_page == pre.current_page
            &&& post.cursor == (if pre.cursor == 0 {
                pre.wallpapers@.len() - 1
            } else {
                pre.cursor - 1
            })
            &&& eff == seq![Effect::ApplyCurrent]
        },
        SessionEvent::Random => {
            &&& post.status is Browsing
            &&& post.current_workspace_id == pre.current_workspace_id
            &&& post.wallpapers@ == pre.wallpapers@
            &&& post.current_page == pre.current_page
            &&& post.cursor < pre.wallpapers@.len()
            &&& eff == seq![Effect::ApplyCurrent]
        },
        SessionEvent::ChangeFilter { refetch } => {
            &&& post.status is Browsing
            &&& post.current_workspace_id == pre.current_workspace_id
            &&& eff == seq![Effect::ApplyCurrent]
            &&& match refetch {
                Some(outcome) => match outcome {
                    Ok(batch) => if batch@.len() > 0 {
                        &&& post.wallpapers@ == batch@
                        &&& post.current_page == 1
                        &&& post.cursor < batch@.len()
                        &&& (!pre.randomize ==> post.cursor == 0)
                    } else {
                        candidates_unchanged(pre, post)
                    },
                    Err(_) => candidates_unchanged(pre, post),
                },
                None => candidates_unchanged(pre, post),
            }
        },
        SessionEvent::OpenExternally => {
            &&& post.status is ExitedExternal
            &&& post.current_workspace_id == pre.original_workspace_id
            &&& candidates_unchanged(pre, post)
            &&& eff == seq![
                Effect::SwitchWorkspace(pre.original_workspace_id),
                Effect::OpenExternal,
            ]
        },
        SessionEvent::Confirm => {
            &&& post.status is ExitedConfirmed
            &&& post.current_workspace_id == pre.original_workspace_id
            &&& candidates_unchanged(pre, post)
            &&& eff == seq![Effect::SwitchWorkspace(pre.original_workspace_id)]
        },
        SessionEvent::Cancel => {
            &&& post.status is ExitedCancelled
            &&& post.current_workspace_id == pre.original_workspace_id
            &&& candidates_unchanged(pre, post)
            &&& eff == (match pre.original_wallpaper {
                Some(p) => seq![
                    Effect::SwitchWorkspace(pre.original_workspace_id),
                    Effect::RestoreWallpaper(p),
                ],
                None => seq![Effect::SwitchWorkspace(pre.original_workspace_id)],
            })
        },
    }
}

impl SessionState {
    /// Performs one browsing step: interprets the event, moves the state
    /// machine, and hands back the effects the application must perform,
    /// in order. The step is pinned down by [`step_rel`].
    pub fn step(&mut self, event: SessionEvent) -> (eff: Vec<Effect>)
        requires
            old(self).wf(),
            old(self).status is Browsing,
        ensures
            final(self).wf(),
            step_rel(*old(self), event, *final(self), eff@),
    {
        let mut eff: Vec<Effect> = Vec::new();
        match event {
            SessionEvent::Next { fetched } => {
                let len: usize = self.wallpapers.len();
                if self.cursor + 1 < len {
                    self.cursor = self.cursor + 1;
                } else {
                    match fetched {
                        Some(mut batch) => {
                            if batch.len() > 0 {
                                self.wallpapers.append(&mut batch);
                                if self.current_page < u32::MAX {
                                    self.current_page = self.current_page + 1;
                                }
                                self.cursor = self.cursor + 1;
                            } else {
                                self.cursor = 0;
                            }
                        },
                        None => {
                            self.cursor = 0;
                        },
                    }
                }
                eff.push(Effect::ApplyCurrent);
                proof {
                    assert(eff@ =~= seq![Effect::ApplyCurrent]);
                }
                eff
            },
            SessionEvent::Prev => {
                if self.cursor == 0 {
                    self.cursor = self.wallpapers.len() - 1;
                } else {
                    self.cursor = self.cursor - 1;
                }
                eff.push(Effect::ApplyCurrent);
                proof {
                    assert(eff@ =~= seq![Effect::ApplyCurrent]);
                }
                eff
            },
            SessionEvent::Random => {
                self.cursor = random_index(self.wallpapers.len());
                eff.push(Effect::ApplyCurrent);
                proof {
                    assert(eff@ =~= seq![Effect::ApplyCurrent]);
                }
                eff
            },
            SessionEvent::ChangeFilter { refetch } => {
                match refetch {
                    Some(outcome) => match outcome {
                        Ok(batch) => {
                            if batch.len() > 0 {
                                let cursor: usize = if self.randomize {
                                    random_index(batch.len())
                                } else {
                                    0
                                };
                                self.wallpapers = batch;
                                self.current_page = 1;
                                self.cursor = cursor;
                            }
                        },
                        Err(_) => {},
                    },
                    None => {},
                }
                eff.push(Effect::ApplyCurrent);
                proof {
                    assert(eff@ =~= seq![Effect::ApplyCurrent]);
                }
                eff
            },
            SessionEvent::OpenExternally => {
                self.status = SessionStatus::ExitedExternal;
                self.current_workspace_id = self.original_workspace_id;
                eff.push(Effect::SwitchWorkspace(self.original_workspace_id));
                eff.push(Effect::OpenExternal);
                proof {
                    assert(eff@ =~= seq![
                        Effect::SwitchWorkspace(old(self).original_workspace_id),
                        Effect::OpenExternal,
                    ]);
                }
                eff
            },
            SessionEvent::Confirm => {
                self.status = SessionStatus::ExitedConfirmed;
                self.current_workspace_id = self.original_workspace_id;
                eff.push(Effect::SwitchWorkspace(self.original_workspace_id));
                proof {
                    assert(eff@ =~= seq![
                        Effect::SwitchWorkspace(old(self).original_workspace_id),
                    ]);
                }
                eff
            },
            SessionEvent::Cancel => {
                self.status = SessionStatus::ExitedCancelled;
                self.current_workspace_id = self.original_workspace_id;
                eff.push(Effect::SwitchWorkspace(self.original_workspace_id));
                match &self.original_wallpaper {
                    Some(p) => {
                        eff.push(Effect::RestoreWallpaper(p.clone()));
                        proof {
                            assert(eff@ =~= seq![
                                Effect::SwitchWorkspace(old(self).original_workspace_id),
                                Effect::RestoreWallpaper(
                                    old(self).original_wallpaper->0,
                                ),
                            ]);
                        }
                    },
                    None => {
                        proof {
                            assert(eff@ =~= seq![
                                Effect::SwitchWorkspace(old(self).original_workspace_id),
                            ]);
                        }
                    },
                }
                eff
            },
        }
    }
}

/// Workspace isolation is always undone: whatever else a step did, if it
/// ended the session, the compositor is back on the original workspace and
/// the switch stands among the requested effects.
pub proof fn lemma_terminal_restores_workspace(
    pre: SessionState,
    event: SessionEvent,
    post: SessionState,
    eff: Seq<Effect>,
)
    requires
        pre.wf(),
        pre.status is Browsing,
        step_rel(pre, event, post, eff),
    ensures
        post.is_terminal() ==> post.current_workspace_id == pre.original_workspace_id
            && eff.contains(Effect::SwitchWorkspace(pre.original_workspace_id)),
{
    if post.is_terminal() {
        match event {
            SessionEvent::OpenExternally => {
                assert(eff[0] == Effect::SwitchWorkspace(pre.original_workspace_id));
            },
            SessionEvent::Confirm => {
                assert(eff[0] == Effect::SwitchWorkspace(pre.original_workspace_id));
            },
            SessionEvent::Cancel => {
                assert(eff[0] == Effect::SwitchWorkspace(pre.original_workspace_id));
            },
            _ => {},
        }
    }
}

/// Cancelling rolls the session back: after browsing away from an original
/// wallpaper `original`, a cancel step ends the session, returns to the
/// original workspace, and orders the re-apply of `original`; recording
/// that re-apply points the persisted record for the output back at
/// `original`'s path.
pub proof fn lemma_cancel_restores_original(
    pre: SessionState,
    post: SessionState,
    eff: Seq<Effect>,
    record: crate::state::State,
    output_name: Seq<char>,
    original: String,
)
    requires
        pre.wf(),
        pre.status is Browsing,
        pre.original_wallpaper == Some(original),
        step_rel(pre, SessionEvent::Cancel, post, eff),
    ensures
        post.status is ExitedCancelled,
        post.current_workspace_id == pre.original_workspace_id,
        eff == seq![
            Effect::SwitchWorkspace(pre.original_workspace_id),
            Effect::RestoreWallpaper(original),
        ],
        record.as_map().insert(output_name, original@)[output_name] == original@,
{
}

/// `Next` wraps instead of running out: at the last candidate, when the
/// next page comes back empty, the cursor moves to the start and stays in
/// bounds.
pub proof fn lemma_next_wraps(
    pre: SessionState,
    post: SessionState,
    eff: Seq<Effect>,
    batch: Vec<Wallpaper>,
)
    requires
        pre.wf(),
        pre.status is Browsing,
        pre.cursor == pre.wallpapers@.len() - 1,
        batch@.len() == 0,
        step_rel(pre, SessionEvent::Next { fetched: Some(batch) }, post, eff),
    ensures
        post.cursor == 0,
        post.cursor < post.wallpapers@.len(),
{
}

/// Within one session the candidate set only grows, except when a filter
/// change replaces it wholesale: every navigation step keeps the fetched
/// prefix intact.
pub proof fn lemma_candidates_monotone(
    pre: SessionState,
    event: SessionEvent,
    post: SessionState,
    eff: Seq<Effect>,
)
    requires
        pre.wf(),
        pre.status is Browsing,
        step_rel(pre, event, post, eff),
        !(event is ChangeFilter),
    ensures
        post.wallpapers@.len() >= pre.wallpapers@.len(),
        post.wallpapers@.subrange(0, pre.wallpapers@.len() as int) == pre.wallpapers@,
{
    match event {
        SessionEvent::Next { fetched } => {
            if pre.cursor + 1 < pre.wallpapers@.len() {
                assert(post.wallpapers@.subrange(0, pre.wallpapers@.len() as int)
                    =~= pre.wallpapers@);
            } else {
                match fetched {
                    Some(batch) => {
                        if batch@.len() > 0 {
                            assert(post.wallpapers@.subrange(0, pre.wallpapers@.len() as int)
                                =~= pre.wallpapers@);
                        } else {
                            assert(post.wallpapers@.subrange(0, pre.wallpapers@.len() as int)
                                =~= pre.wallpapers@);
                        }
                    },
                    None => {
                        assert(post.wallpapers@.subrange(0, pre.wallpapers@.len() as int)
                            =~= pre.wallpapers@);
                    },
                }
            }
        },
        _ => {
            assert(post.wallpapers@.subrange(0, pre.wallpapers@.len() as int)
                =~= pre.wallpapers@);
        },
    }
}

} // verus!
