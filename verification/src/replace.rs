//! Stored application identity and the clipboard-based replacement
//! sequence.
//!
//! A single optional application name is stored when a capture or
//! paragraph-selection action intends a later replacement, and cleared on
//! dismiss or once a replacement reaches the paste step. Replacement is
//! only valid while an identity is stored.

use vstd::prelude::*;

use crate::errors::EngineError;
use crate::errors::ExternalTool;
use crate::probe::SystemActions;

verus! {

/// The one application identity the engine remembers for replacement.
/// At most one identity is stored at a time; the last write wins.
pub struct AppIdentityStore {
    /// Name of the application a replacement would be pasted into.
    pub stored: Option<String>,
}

impl AppIdentityStore {
    /// A store with no identity: replacement is not yet valid.
    pub fn new() -> (s: Self)
        ensures
            s.stored is None,
    {
        AppIdentityStore { stored: None }
    }

    /// Remember `name` as the replacement target (or forget it, when
    /// `None`). The last write wins.
    pub fn store_app_name(&mut self, name: Option<String>)
        ensures
            final(self).stored == name,
    {
        self.stored = name;
    }

    /// The currently stored application name, if any.
    pub fn get_stored_app_name(&self) -> (r: Option<String>)
        ensures
            r == self.stored,
    {
        self.stored.clone()
    }

    /// Clear the stored identity, e.g. on dismiss.
    pub fn clear_stored_element(&mut self)
        ensures
            final(self).stored is None,
    {
        self.stored = None;
    }

    /// Cache the frontmost application, as the platform reported it, for a
    /// later replacement. Fails, leaving the store unchanged, when no
    /// frontmost application could be identified.
    pub fn cache_frontmost_app_for_replace(&mut self, frontmost: Option<String>) -> (r: Result<
        (),
        EngineError,
    >)
        ensures
            match frontmost {
                Some(name) => r is Ok && final(self).stored == Some(name),
                None => r matches Err(EngineError::NoFrontmostApp) && *final(self) == *old(self),
            },
    {
        match frontmost {
            Some(name) => {
                self.store_app_name(Some(name));
                Ok(())
            },
            None => Err(EngineError::NoFrontmostApp),
        }
    }
}

/// Query the frontmost application and cache its identity for a later
/// replacement. Used by the passive indicator flow, which avoids a full
/// capture.
pub fn refresh_app_identity<S: SystemActions>(store: &mut AppIdentityStore, sys: &mut S) -> (r:
    Result<(), EngineError>)
    ensures
        r is Err ==> (r matches Err(EngineError::NoFrontmostApp)) && *final(store) == *old(store),
        r is Ok ==> final(store).stored is Some,
{
    let frontmost = sys.frontmost_app_name();
    store.cache_frontmost_app_for_replace(frontmost)
}

/// Which flow initiated a replacement, deciding how long the originating
/// application is given to regain focus before the paste keystroke.
#[derive(Clone, Copy, Debug, PartialEq, Eq, Structural)]
pub enum ReplaceFlow {
    /// The peek-driven indicator flow.
    Indicator,
    /// The full-capture flow; the originating application needs more time
    /// to regain focus on this path.
    FullCapture,
}

/// The settle delay between reactivating the stored application and
/// simulating the paste keystroke, in milliseconds.
pub open spec fn settle_delay_spec(flow: ReplaceFlow) -> u64 {
    match flow {
        ReplaceFlow::Indicator => 150,
        ReplaceFlow::FullCapture => 500,
    }
}

/// Runtime value of [`settle_delay_spec`].
pub fn settle_delay_ms(flow: ReplaceFlow) -> (r: u64)
    ensures
        r == settle_delay_spec(flow),
{
    match flow {
        ReplaceFlow::Indicator => 150,
        ReplaceFlow::FullCapture => 500,
    }
}

/// Write `text` back into the originally captured application via the
/// clipboard: set the clipboard, reactivate the stored application, wait
/// for it to regain focus, and simulate a paste keystroke.
///
/// Fails with `NoStoredApp` exactly when no identity is stored. Steps
/// already completed are not rolled back — clipboard content and focus are
/// not reversible — and once the sequence reaches the paste step the
/// stored identity is cleared unconditionally, whether or not the paste
/// helper reported success, to avoid stale replays.
pub fn replace_via_clipboard<S: SystemActions>(
    store: &mut AppIdentityStore,
    sys: &mut S,
    text: &str,
    flow: ReplaceFlow,
) -> (r: Result<(), EngineError>)
    ensures
        r matches Err(EngineError::NoStoredApp) <==> old(store).stored is None,
        r matches Err(EngineError::NoStoredApp) ==> *final(store) == *old(store),
        r matches Err(
            EngineError::ExternalToolFailure(ExternalTool::Clipboard, _),
        ) ==> *final(store) == *old(store),
        r matches Err(
            EngineError::ExternalToolFailure(ExternalTool::AppActivation, _),
        ) ==> *final(store) == *old(store),
        (r is Ok || r matches Err(
            EngineError::ExternalToolFailure(ExternalTool::PasteKeystroke, _),
        )) ==> final(store).stored is None,
        old(store).stored is Some ==> (r is Ok || r matches Err(
            EngineError::ExternalToolFailure(_, _),
        )),
{
    let app_name = match store.get_stored_app_name() {
        Some(name) => name,
        None => {
            return Err(EngineError::NoStoredApp);
        },
    };

    if let Err(detail) = sys.set_clipboard(text) {
        return Err(EngineError::ExternalToolFailure(ExternalTool::Clipboard, detail));
    }
    if let Err(detail) = sys.activate_app(app_name.as_str()) {
        return Err(EngineError::ExternalToolFailure(ExternalTool::AppActivation, detail));
    }
    sys.settle(settle_delay_ms(flow));
    let pasted = sys.simulate_paste();

    // The paste was attempted: clear the stored identity whether or not
    // the helper reported success, so a stale identity is never replayed.
    store.clear_stored_element();

    match pasted {
        Ok(()) => Ok(()),
        Err(detail) => Err(EngineError::ExternalToolFailure(ExternalTool::PasteKeystroke, detail)),
    }
}

} // verus!
