//! The error taxonomy of the session engine.

use vstd::prelude::*;

verus! {

/// Everything that can end a session step or an apply attempt.
#[derive(Debug, Clone, Copy, PartialEq, Eq, Structural)]
pub enum SessionError {
    /// The compositor control surface could not be queried; callers degrade
    /// to the fallback monitor descriptor.
    CompositorUnreachable,
    /// No output was reported as focused.
    NoFocusedOutput,
    /// Switching workspaces failed; the session step that asked for
    /// isolation must abort.
    WorkspaceSwitchFailed,
    /// The catalog answered with an authorization failure; the user must
    /// configure a credential.
    CatalogUnauthorized,
    /// The catalog could not be reached or its answer could not be read.
    CatalogUnavailable,
    /// Fetching the image bytes failed; the apply attempt aborts and the
    /// persisted record is left alone.
    DownloadFailed,
    /// A segment of the configured wallpaper command exited non-zero.
    ApplyCommandFailed,
    /// Writing the persisted record failed; logged, never fatal.
    StatePersistFailed,
    /// No user name could be determined for the collections listing.
    UsernameRequired,
}

impl SessionError {
    /// A short description of the error, one line per variant.
    pub fn message(&self) -> (r: String)
        ensures
            *self is CompositorUnreachable ==> r@ == "could not query the compositor"@,
            *self is NoFocusedOutput ==> r@ == "no focused output found"@,
            *self is WorkspaceSwitchFailed ==> r@ == "failed to switch workspace"@,
            *self is CatalogUnauthorized ==> r@ == "catalog authorization failed: configure an API key"@,
            *self is CatalogUnavailable ==> r@ == "catalog unavailable"@,
            *self is DownloadFailed ==> r@ == "download failed"@,
            *self is ApplyCommandFailed ==> r@ == "wallpaper command failed"@,
            *self is StatePersistFailed ==> r@ == "failed to persist wallpaper state"@,
            *self is UsernameRequired ==> r@ == "a user name is required"@,
    {
        match self {
            SessionError::CompositorUnreachable => "could not query the compositor".to_owned(),
            SessionError::NoFocusedOutput => "no focused output found".to_owned(),
            SessionError::WorkspaceSwitchFailed => "failed to switch workspace".to_owned(),
            SessionError::CatalogUnauthorized => "catalog authorization failed: configure an API key".to_owned(),
            SessionError::CatalogUnavailable => "catalog unavailable".to_owned(),
            SessionError::DownloadFailed => "download failed".to_owned(),
            SessionError::ApplyCommandFailed => "wallpaper command failed".to_owned(),
            SessionError::StatePersistFailed => "failed to persist wallpaper state".to_owned(),
            SessionError::UsernameRequired => "a user name is required".to_owned(),
        }
    }
}

} // verus!
