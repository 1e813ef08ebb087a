use hyprwallhaven::errors::SessionError;
use hyprwallhaven::session::{session_init, Effect, SessionEvent, SessionStatus};
use hyprwallhaven::state::State;
use hyprwallhaven::wallhaven::Wallpaper;

fn candidates(n: usize) -> Vec<Wallpaper> {
    let mut v = Vec::new();
    for i in 0..n {
        v.push(Wallpaper {
            id: format!("id{:04}", i),
            short_url: format!("https://whvn.cc/id{:04}", i),
            path: format!("https://w.wallhaven.cc/full/id/wallhaven-id{:04}.jpg", i),
        });
    }
    v
}

#[test]
fn init_browsing_enters_isolation_workspace() {
    let occupied = vec![10, 11, 13];
    let r = session_init(2, None, Ok(candidates(3)), &occupied, 1, false);
    let (s, eff) = r.expect("init should succeed");
    assert_eq!(s.status, SessionStatus::Browsing);
    assert_eq!(s.isolation_workspace_id, 12);
    assert_eq!(s.current_workspace_id, 12);
    assert_eq!(s.cursor, 0);
    assert_eq!(s.current_page, 1);
    assert_eq!(
        eff,
        vec![Effect::SwitchWorkspace(12), Effect::ApplyCurrent]
    );
}

#[test]
fn init_no_results_terminates_without_side_effects() {
    // Zero results: the session ends right after its start, asking for no
    // workspace switch at all.
    let occupied = vec![10];
    let r = session_init(4, None, Ok(Vec::new()), &occupied, 1, false);
    let (s, eff) = r.expect("an empty result is not an error");
    assert_eq!(s.status, SessionStatus::ExitedNoResults);
    assert_eq!(s.current_workspace_id, 4);
    assert!(eff.is_empty());
}

#[test]
fn init_unauthorized_terminates_with_credential_error() {
    // A 401 during the initial fetch ends the session with the
    // credential-actionable error and asks for no workspace switch.
    let occupied = vec![];
    let r = session_init(
        4,
        None,
        Err(SessionError::CatalogUnauthorized),
        &occupied,
        1,
        false,
    );
    match r {
        Err(e) => assert_eq!(e, SessionError::CatalogUnauthorized),
        Ok(_) => panic!("a 401 must terminate the session"),
    }
}

#[test]
fn init_unavailable_is_propagated() {
    let occupied = vec![];
    let r = session_init(
        4,
        None,
        Err(SessionError::CatalogUnavailable),
        &occupied,
        1,
        false,
    );
    match r {
        Err(e) => assert_eq!(e, SessionError::CatalogUnavailable),
        Ok(_) => panic!("an unreachable catalog must terminate the session"),
    }
}

#[test]
fn next_advances_within_fetched_range() {
    let occupied = vec![];
    let (mut s, _) = session_init(1, None, Ok(candidates(3)), &occupied, 1, false).unwrap();
    let eff = s.step(SessionEvent::Next { fetched: None });
    assert_eq!(s.cursor, 1);
    assert_eq!(eff, vec![Effect::ApplyCurrent]);
    s.step(SessionEvent::Next { fetched: None });
    assert_eq!(s.cursor, 2);
}

#[test]
fn next_wraps_to_zero_on_empty_page() {
    // At cursor len-1, Next with an exhausted next page wraps to 0.
    let occupied = vec![];
    let (mut s, _) = session_init(1, None, Ok(candidates(2)), &occupied, 1, false).unwrap();
    s.step(SessionEvent::Next { fetched: None });
    assert_eq!(s.cursor, 1);
    let eff = s.step(SessionEvent::Next {
        fetched: Some(Vec::new()),
    });
    assert_eq!(s.cursor, 0);
    assert_eq!(s.wallpapers.len(), 2);
    assert_eq!(s.current_page, 1);
    assert_eq!(eff, vec![Effect::ApplyCurrent]);
}

#[test]
fn next_wraps_to_zero_on_failed_fetch() {
    let occupied = vec![];
    let (mut s, _) = session_init(1, None, Ok(candidates(1)), &occupied, 1, false).unwrap();
    s.step(SessionEvent::Next { fetched: None });
    assert_eq!(s.cursor, 0);
}

#[test]
fn next_extends_with_fetched_page() {
    let occupied = vec![];
    let (mut s, _) = session_init(1, None, Ok(candidates(2)), &occupied, 1, false).unwrap();
    s.step(SessionEvent::Next { fetched: None });
    let eff = s.step(SessionEvent::Next {
        fetched: Some(candidates(2)),
    });
    assert_eq!(s.wallpapers.len(), 4);
    assert_eq!(s.cursor, 2);
    assert_eq!(s.current_page, 2);
    assert_eq!(eff, vec![Effect::ApplyCurrent]);
}

#[test]
fn prev_wraps_backward() {
    let occupied = vec![];
    let (mut s, _) = session_init(1, None, Ok(candidates(3)), &occupied, 1, false).unwrap();
    s.step(SessionEvent::Prev);
    assert_eq!(s.cursor, 2);
    s.step(SessionEvent::Prev);
    assert_eq!(s.cursor, 1);
}

#[test]
fn random_stays_in_bounds() {
    let occupied = vec![];
    let (mut s, _) = session_init(1, None, Ok(candidates(5)), &occupied, 1, false).unwrap();
    for _ in 0..50 {
        s.step(SessionEvent::Random);
        assert!(s.cursor < s.wallpapers.len());
    }
}

#[test]
fn filter_change_replaces_wholesale() {
    let occupied = vec![];
    let (mut s, _) = session_init(1, None, Ok(candidates(5)), &occupied, 3, false).unwrap();
    s.step(SessionEvent::Prev);
    assert_eq!(s.cursor, 4);
    let eff = s.step(SessionEvent::ChangeFilter {
        refetch: Some(Ok(candidates(2))),
    });
    assert_eq!(s.wallpapers.len(), 2);
    assert_eq!(s.cursor, 0);
    assert_eq!(s.current_page, 1);
    assert_eq!(eff, vec![Effect::ApplyCurrent]);
}

#[test]
fn filter_change_with_empty_result_keeps_old_set() {
    let occupied = vec![];
    let (mut s, _) = session_init(1, None, Ok(candidates(5)), &occupied, 2, false).unwrap();
    s.step(SessionEvent::ChangeFilter {
        refetch: Some(Ok(Vec::new())),
    });
    assert_eq!(s.wallpapers.len(), 5);
    assert_eq!(s.current_page, 2);
}

#[test]
fn filter_change_with_failed_refetch_keeps_old_set() {
    let occupied = vec![];
    let (mut s, _) = session_init(1, None, Ok(candidates(5)), &occupied, 2, false).unwrap();
    s.step(SessionEvent::ChangeFilter {
        refetch: Some(Err(SessionError::CatalogUnavailable)),
    });
    assert_eq!(s.wallpapers.len(), 5);
    assert_eq!(s.status, SessionStatus::Browsing);
}

#[test]
fn confirm_restores_workspace_and_keeps_wallpaper() {
    let occupied = vec![];
    let (mut s, _) = session_init(
        7,
        Some("/old/wall.png".to_string()),
        Ok(candidates(2)),
        &occupied,
        1,
        false,
    )
    .unwrap();
    let eff = s.step(SessionEvent::Confirm);
    assert_eq!(s.status, SessionStatus::ExitedConfirmed);
    assert_eq!(s.current_workspace_id, 7);
    // No restoration of the original wallpaper on confirm.
    assert_eq!(eff, vec![Effect::SwitchWorkspace(7)]);
}

#[test]
fn cancel_restores_workspace_and_original_wallpaper() {
    let occupied = vec![];
    let (mut s, _) = session_init(
        7,
        Some("/old/wall.png".to_string()),
        Ok(candidates(2)),
        &occupied,
        1,
        false,
    )
    .unwrap();
    let eff = s.step(SessionEvent::Cancel);
    assert_eq!(s.status, SessionStatus::ExitedCancelled);
    assert_eq!(s.current_workspace_id, 7);
    assert_eq!(
        eff,
        vec![
            Effect::SwitchWorkspace(7),
            Effect::RestoreWallpaper("/old/wall.png".to_string()),
        ]
    );
}

#[test]
fn cancel_without_known_original_only_switches_back() {
    let occupied = vec![];
    let (mut s, _) = session_init(7, None, Ok(candidates(2)), &occupied, 1, false).unwrap();
    let eff = s.step(SessionEvent::Cancel);
    assert_eq!(s.status, SessionStatus::ExitedCancelled);
    assert_eq!(eff, vec![Effect::SwitchWorkspace(7)]);
}

#[test]
fn open_externally_restores_workspace() {
    let occupied = vec![];
    let (mut s, _) = session_init(
        7,
        Some("/old/wall.png".to_string()),
        Ok(candidates(2)),
        &occupied,
        1,
        false,
    )
    .unwrap();
    let eff = s.step(SessionEvent::OpenExternally);
    assert_eq!(s.status, SessionStatus::ExitedExternal);
    assert_eq!(s.current_workspace_id, 7);
    // The wallpaper already applied stays; only the switch and the handoff.
    assert_eq!(
        eff,
        vec![Effect::SwitchWorkspace(7), Effect::OpenExternal]
    );
}

#[test]
fn cancel_after_applying_other_candidate_points_record_back() {
    // Start from wallpaper A, browse to candidate B and apply it, cancel:
    // A's path is re-applied and the record points back at A.
    let a = "/walls/wallhaven-aaaaaa.jpg".to_string();
    let occupied = vec![];
    let (mut s, _) = session_init(3, Some(a.clone()), Ok(candidates(4)), &occupied, 1, false)
        .unwrap();
    let mut record = State::new();
    let output = "DP-1".to_string();
    // The application of candidate B updates the record.
    s.step(SessionEvent::Next { fetched: None });
    let b = "/walls/wallhaven-bbbbbb.jpg".to_string();
    record.set(output.clone(), b.clone());
    assert_eq!(record.get(&output), Some(b));
    // Cancel: the machine orders the restore, performing it updates the
    // record back to A.
    let eff = s.step(SessionEvent::Cancel);
    assert_eq!(eff[0], Effect::SwitchWorkspace(3));
    match &eff[1] {
        Effect::RestoreWallpaper(p) => {
            record.set(output.clone(), p.clone());
        }
        other => panic!("expected a restore effect, got {:?}", other),
    }
    assert_eq!(record.get(&output), Some(a));
}

#[test]
fn scenario_search_random_confirm() {
    // Query "mountains": page 1 returns 24 candidates; the user issues
    // Random, then Confirm. The session ends confirmed, the record holds
    // the randomly chosen candidate's local path, and the original
    // wallpaper is never restored.
    let original = "/walls/original.png".to_string();
    let occupied = vec![10];
    let (mut s, eff0) = session_init(
        1,
        Some(original.clone()),
        Ok(candidates(24)),
        &occupied,
        1,
        false,
    )
    .unwrap();
    assert_eq!(s.wallpapers.len(), 24);
    assert_eq!(
        eff0,
        vec![Effect::SwitchWorkspace(11), Effect::ApplyCurrent]
    );
    let mut record = State::new();
    let output = "DP-1".to_string();

    let eff1 = s.step(SessionEvent::Random);
    assert_eq!(eff1, vec![Effect::ApplyCurrent]);
    let chosen = s.current().clone();
    let local = format!("/walls/wallhaven-{}.jpg", chosen.id);
    record.set(output.clone(), local.clone());

    let eff2 = s.step(SessionEvent::Confirm);
    assert_eq!(s.status, SessionStatus::ExitedConfirmed);
    assert_eq!(eff2, vec![Effect::SwitchWorkspace(1)]);
    // The record keeps the chosen candidate's path; nothing restored.
    assert_eq!(record.get(&output), Some(local));
    assert_ne!(record.get(&output), Some(original));
}

#[test]
fn random_page_is_within_bounds() {
    for _ in 0..50 {
        let p = hyprwallhaven::session::random_page_up_to(3);
        assert!((1..=3).contains(&p));
    }
}
