use taskwarden::suspend::SuspensionDetector;
use taskwarden::suspend::SUSPENSION_FAILURES;

#[test]
fn six_rapid_failures_latch_suspension() {
    let mut d = SuspensionDetector::new();
    // Six failures within the three-second window: the first five do not
    // latch, the sixth does.
    for k in 0..SUSPENSION_FAILURES {
        let latched = d.fail_at(1_000 + (k as i64) * 400);
        if k + 1 < SUSPENSION_FAILURES {
            assert!(!latched, "failure {} must not latch", k + 1);
        } else {
            assert!(latched, "the sixth failure must latch");
        }
    }
    assert!(d.suspended());
}

#[test]
fn sixth_failure_latches_even_outside_window() {
    // The window only decides which start instant is kept; the verdict
    // counts failures since the last reset.
    let mut d = SuspensionDetector::new();
    for k in 0..5 {
        assert!(!d.fail_at(k * 10_000));
    }
    assert!(d.fail_at(90_000));
    assert!(d.suspended());
}

#[test]
fn latched_detector_is_idempotent() {
    let mut d = SuspensionDetector::new();
    for k in 0..6 {
        d.fail_at(k);
    }
    assert!(d.suspended());
    assert!(d.fail_at(7));
    assert!(d.suspended());
}

#[test]
fn reset_clears_everything() {
    let mut d = SuspensionDetector::new();
    for k in 0..6 {
        d.fail_at(k);
    }
    assert!(d.suspended());
    d.reset();
    assert!(!d.suspended());
    // After a reset the count starts over: five more failures do not latch.
    for k in 0..5 {
        assert!(!d.fail_at(100 + k));
    }
    assert!(!d.suspended());
}

#[test]
fn fresh_detector_is_not_suspended() {
    let d = SuspensionDetector::new();
    assert!(!d.suspended());
    assert_eq!(d.failures, 0);
    assert!(d.start_time.is_none());
}
