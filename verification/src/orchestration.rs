//! The phase sequencing of one onboarding run.
//!
//! A run is a strict sequence: the key-consistency check, then — only
//! if the registration marker is absent — the registration-authority
//! phase, then — only if the overlay status calls for it — the
//! overlay-registration phase.  The caller advances through the
//! phases with `next_phase`, moving on only when the current phase
//! has succeeded; a failed validation or registration aborts the run
//! instead of advancing.

use vstd::prelude::*;

verus! {

/// The phases of an onboarding run, in order.
#[derive(Clone, Copy, Debug, PartialEq, Eq)]
pub enum Phase {
    /// The pre-flight key-consistency check.
    Validate,
    /// The membrane-proof registration handshake.
    Registration,
    /// The overlay-network registration handshake, driven by the
    /// retry controller.
    OverlayAuth,
    /// Nothing left to do.
    Done,
}

/// The phase that follows a successfully completed phase, given
/// whether the registration marker file existed at the start of the
/// run and whether the overlay phase is enabled at all.
pub open spec fn spec_next_phase(
    current: Phase,
    registration_marker_exists: bool,
    overlay_enabled: bool,
) -> Phase {
    match current {
        Phase::Validate => if !registration_marker_exists {
            Phase::Registration
        } else if overlay_enabled {
            Phase::OverlayAuth
        } else {
            Phase::Done
        },
        Phase::Registration => if overlay_enabled {
            Phase::OverlayAuth
        } else {
            Phase::Done
        },
        Phase::OverlayAuth => Phase::Done,
        Phase::Done => Phase::Done,
    }
}

/// Advance past a successfully completed phase.
pub fn next_phase(
    current: Phase,
    registration_marker_exists: bool,
    overlay_enabled: bool,
) -> (p: Phase)
    ensures
        p == spec_next_phase(current, registration_marker_exists, overlay_enabled),
{
    match current {
        Phase::Validate => {
            if !registration_marker_exists {
                Phase::Registration
            } else if overlay_enabled {
                Phase::OverlayAuth
            } else {
                Phase::Done
            }
        },
        Phase::Registration => {
            if overlay_enabled {
                Phase::OverlayAuth
            } else {
                Phase::Done
            }
        },
        Phase::OverlayAuth => Phase::Done,
        Phase::Done => Phase::Done,
    }
}

/// The phase a run stands in after `n` successful advances from
/// `start`, under unchanging marker and overlay signals.
pub open spec fn spec_phase_run(
    start: Phase,
    registration_marker_exists: bool,
    overlay_enabled: bool,
    n: nat,
) -> Phase
    decreases n,
{
    if n == 0 {
        start
    } else {
        spec_next_phase(
            spec_phase_run(start, registration_marker_exists, overlay_enabled, (n - 1) as nat),
            registration_marker_exists,
            overlay_enabled,
        )
    }
}

/// Idempotence of registration: if the registration marker file
/// exists when the run starts, no number of advances from the initial
/// phase ever enters the registration phase.
pub proof fn lemma_marker_skips_registration(overlay_enabled: bool, n: nat)
    ensures
        spec_phase_run(Phase::Validate, true, overlay_enabled, n) != Phase::Registration,
    decreases n,
{
    if n > 0 {
        lemma_marker_skips_registration(overlay_enabled, (n - 1) as nat);
    }
}

} // verus!
