//! The terminal raw-mode lifecycle: a process-wide snapshot of the real
//! console's attributes that must be restored exactly once, whatever way the
//! process goes down.
//!
//! The attribute bytes themselves are opaque: the binary reads them from the
//! OS and applies them back. What this module pins down is the lifecycle —
//! `Unsaved -> Saved -> Restored` — and its two guarantees: raw mode can
//! only be derived from a snapshot that was actually saved, and the restore
//! step hands the snapshot out exactly once, so a second restore performs no
//! second attribute-set call and can never fail.

use vstd::prelude::*;

verus! {

/// Where the process-wide terminal snapshot stands in its lifecycle.
#[derive(Clone, Copy, Debug, PartialEq, Eq, Structural)]
pub enum TermLifecycle {
    /// No snapshot was taken yet; nothing may be mutated or restored.
    Unsaved,
    /// A snapshot is held; raw mode may be derived, restore is owed.
    Saved,
    /// The snapshot was handed out for restoring; nothing is owed any more.
    Restored,
}

/// An opaque snapshot of a terminal's attributes, carried as the raw bytes
/// the OS handed out.
#[derive(Debug)]
pub struct SavedSettings {
    pub raw: Vec<u8>,
}

/// The error of a call made out of order: raw mode was asked for before any
/// settings were saved.
#[derive(Clone, Copy, Debug, PartialEq, Eq, Structural)]
pub struct NotSavedError {}

/// The process-wide terminal session: the lifecycle state and the snapshot
/// it holds while one is owed.
pub struct TermSession {
    pub state: TermLifecycle,
    pub saved: Option<SavedSettings>,
}

/// A session holds a snapshot exactly while it is in the `Saved` state.
pub open spec fn session_wf(s: TermSession) -> bool {
    s.state is Saved <==> s.saved is Some
}

/// The state a session moves to when it is reset: a saved session becomes
/// restored, any other is left as it was; the snapshot slot is empty either
/// way.
pub open spec fn reset_transition(s: TermSession) -> TermSession {
    TermSession {
        state: if s.state is Saved {
            TermLifecycle::Restored
        } else {
            s.state
        },
        saved: None,
    }
}

/// What a reset instructs the caller to do: apply this snapshot back to the
/// console — or, when none is held, nothing at all.
pub open spec fn reset_action(s: TermSession) -> Option<SavedSettings> {
    if s.state is Saved {
        s.saved
    } else {
        None
    }
}

/// Restoring twice is harmless: after one reset, the next reset instructs
/// no attribute-set call at all and leaves the session exactly as it was.
/// This is what makes the exit hook safe to run on every termination path,
/// even after an orderly restore already happened.
pub proof fn lemma_reset_idempotent(s: TermSession)
    ensures
        reset_action(reset_transition(s)) is None,
        reset_transition(reset_transition(s)) == reset_transition(s),
{
}

impl TermSession {
    /// A fresh session: nothing saved, nothing owed.
    pub fn new() -> (r: TermSession)
        ensures
            r.state is Unsaved,
            r.saved is None,
            session_wf(r),
    {
        TermSession { state: TermLifecycle::Unsaved, saved: None }
    }

    /// Stores the attribute snapshot the binary read from the console; from
    /// here on raw mode may be derived and a restore is owed.
    pub fn save_term_settings(&mut self, settings: SavedSettings)
        ensures
            final(self).state is Saved,
            final(self).saved matches Some(s) && s.raw@ == settings.raw@,
            session_wf(*final(self)),
    {
        self.state = TermLifecycle::Saved;
        self.saved = Some(settings);
    }

    /// Hands out the saved snapshot for deriving raw-mode attributes. Fails
    /// exactly when no settings were saved first: a call-order violation,
    /// not an OS error.
    pub fn set_raw(&self) -> (r: Result<&SavedSettings, NotSavedError>)
        requires
            session_wf(*self),
        ensures
            r is Ok <==> self.state is Saved,
            r matches Ok(s) ==> self.saved matches Some(held) && s.raw@ == held.raw@,
    {
        match &self.saved {
            Some(s) => Ok(s),
            None => Err(NotSavedError {}),
        }
    }

    /// The restore step: hands the snapshot out to be applied back to the
    /// console, exactly once. The first call on a saved session yields the
    /// snapshot and moves to `Restored`; every other call yields nothing
    /// and changes nothing, exactly as [`reset_transition`] and
    /// [`reset_action`] say.
    pub fn reset_tty(&mut self) -> (r: Option<SavedSettings>)
        requires
            session_wf(*old(self)),
        ensures
            r == reset_action(*old(self)),
            *final(self) == reset_transition(*old(self)),
            session_wf(*final(self)),
            reset_action(*final(self)) is None,
    {
        let taken = self.saved.take();
        match taken {
            Some(s) => {
                self.state = TermLifecycle::Restored;
                Some(s)
            }
            None => None,
        }
    }
}

/// The real console's window size, captured before the pty is allocated and
/// applied to the child's slave end, so the child sees the same geometry
/// the user does.
#[derive(Clone, Copy, Debug, PartialEq, Eq, Structural)]
pub struct WindowSize {
    pub rows: u16,
    pub cols: u16,
    pub xpixel: u16,
    pub ypixel: u16,
}

/// Whether the parent keeps an extra handle to the pty slave after the
/// fork. Some platforms drop buffered data when the child's last slave
/// descriptor closes unless the parent holds one open; on Linux holding one
/// open is actively harmful — it suppresses the hang-up notification on the
/// master and would leave the relay loop waiting forever. Fixed per target
/// platform, not decided at run time.
pub const KEEP_SLAVE_AFTER_FORK: bool = false;

} // verus!
