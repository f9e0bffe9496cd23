use holo_auth::orchestration::next_phase;
use holo_auth::orchestration::Phase;

#[test]
fn full_run_visits_every_phase() {
    // No marker yet, overlay enabled: validate, register, overlay, done.
    let marker_exists = false;
    let overlay_enabled = true;
    let p1 = next_phase(Phase::Validate, marker_exists, overlay_enabled);
    assert_eq!(p1, Phase::Registration);
    let p2 = next_phase(p1, marker_exists, overlay_enabled);
    assert_eq!(p2, Phase::OverlayAuth);
    let p3 = next_phase(p2, marker_exists, overlay_enabled);
    assert_eq!(p3, Phase::Done);
    assert_eq!(next_phase(p3, marker_exists, overlay_enabled), Phase::Done);
}

#[test]
fn existing_marker_skips_registration() {
    // With the registration marker present at start, no step of the
    // run enters the registration phase.
    for overlay_enabled in [false, true] {
        let mut phase = Phase::Validate;
        for _ in 0..5 {
            phase = next_phase(phase, true, overlay_enabled);
            assert_ne!(phase, Phase::Registration);
        }
        assert_eq!(phase, Phase::Done);
    }
}

#[test]
fn overlay_runs_only_when_enabled() {
    assert_eq!(next_phase(Phase::Registration, false, true), Phase::OverlayAuth);
    assert_eq!(next_phase(Phase::Registration, false, false), Phase::Done);
    assert_eq!(next_phase(Phase::Validate, true, true), Phase::OverlayAuth);
    assert_eq!(next_phase(Phase::Validate, true, false), Phase::Done);
}
