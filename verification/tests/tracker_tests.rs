use fxaa_render::dims::ScreenDims;
use fxaa_render::tracker::DimTracker;
use fxaa_render::tracker::RebuildPhase;

fn dims(w: u32, h: u32) -> Option<ScreenDims> {
    Some(ScreenDims::new(w, h))
}

#[test]
fn first_ever_reading_never_rebuilds() {
    let mut t = DimTracker::new();
    assert!(!t.observe(dims(800, 600)));
}

#[test]
fn a_stable_reading_after_a_change_rebuilds_once() {
    let mut t = DimTracker::new();
    assert!(!t.observe(dims(800, 600)));
    assert!(t.observe(dims(800, 600)));
    t.mark_built();
    assert!(!t.observe(dims(800, 600)));
    assert!(!t.observe(dims(800, 600)));
}

#[test]
fn a_single_changed_reading_does_not_rebuild() {
    let mut t = DimTracker::new();
    t.observe(dims(800, 600));
    t.observe(dims(800, 600));
    t.mark_built();
    assert!(!t.observe(dims(1024, 768)));
}

#[test]
fn a_transient_reading_that_reverts_never_rebuilds() {
    let mut t = DimTracker::new();
    t.observe(dims(800, 600));
    t.observe(dims(800, 600));
    t.mark_built();
    assert!(!t.observe(dims(1024, 768)));
    assert!(!t.observe(dims(800, 600)));
    assert!(!t.observe(dims(800, 600)));
    assert!(!t.observe(dims(800, 600)));
}

#[test]
fn phase_reports_pending_while_a_change_awaits_its_rebuild() {
    let mut t = DimTracker::new();
    t.observe(dims(800, 600));
    t.observe(dims(800, 600));
    t.mark_built();
    assert_eq!(t.current_phase(), RebuildPhase::Stable);
    t.observe(dims(1024, 768));
    assert_eq!(t.current_phase(), RebuildPhase::PendingRebuild);
    t.observe(dims(1024, 768));
    t.mark_built();
    assert_eq!(t.current_phase(), RebuildPhase::Stable);
}

#[test]
fn a_missing_reading_is_a_reading_too() {
    let mut t = DimTracker::new();
    assert!(!t.observe(None));
    assert!(!t.observe(None));
    assert!(!t.observe(dims(640, 480)));
    assert!(t.observe(dims(640, 480)));
}
