use tww::channels::Polled;
use tww::lifecycle::{is_stage, new_lifecycle, stage_found, ContextDestroyed};
use tww::{LifecycleStage, LifecycleWatcher};

#[test]
fn application_starts_in_the_background() {
    let lifecycle = new_lifecycle();
    let mut watcher = LifecycleWatcher::new(&lifecycle);
    assert_eq!(watcher.lifecycle(), LifecycleStage::Background);
}

#[test]
fn new_watcher_reports_the_stage_that_is_set() {
    let lifecycle = new_lifecycle();
    lifecycle.send_replace(LifecycleStage::Rendering);
    let mut watcher = LifecycleWatcher::new(&lifecycle);
    assert_eq!(watcher.entered_lifecycle(), Ok(Some(LifecycleStage::Rendering)));
    assert_eq!(watcher.entered_lifecycle(), Ok(None));
}

#[test]
fn new_watcher_reports_even_after_the_end() {
    let lifecycle = new_lifecycle();
    let mut watcher = LifecycleWatcher::new(&lifecycle);
    drop(lifecycle);
    assert_eq!(watcher.entered_lifecycle(), Ok(Some(LifecycleStage::Background)));
    assert_eq!(watcher.entered_lifecycle(), Err(ContextDestroyed));
}

#[test]
fn stage_set_twice_is_reported_twice() {
    let lifecycle = new_lifecycle();
    let mut watcher = LifecycleWatcher::new(&lifecycle);
    lifecycle.send_replace(LifecycleStage::Rendering);
    assert_eq!(watcher.entered_lifecycle(), Ok(Some(LifecycleStage::Rendering)));
    lifecycle.send_replace(LifecycleStage::Rendering);
    assert_eq!(watcher.entered_lifecycle(), Ok(Some(LifecycleStage::Rendering)));
    assert_eq!(watcher.entered_lifecycle(), Ok(None));
}

#[test]
fn reading_the_stage_marks_it_as_seen() {
    let lifecycle = new_lifecycle();
    let mut watcher = LifecycleWatcher::new(&lifecycle);
    lifecycle.send_replace(LifecycleStage::Rendering);
    assert_eq!(watcher.lifecycle(), LifecycleStage::Rendering);
    assert_eq!(watcher.entered_lifecycle(), Ok(None));
}

#[test]
fn stage_is_found_only_while_it_is_set() {
    let lifecycle = new_lifecycle();
    let mut watcher = LifecycleWatcher::new(&lifecycle);
    assert_eq!(watcher.entered_rendering(), Ok(false));
    assert_eq!(watcher.entered_background(), Ok(true));
    lifecycle.send_replace(LifecycleStage::Rendering);
    assert_eq!(watcher.entered_stage(LifecycleStage::Rendering), Ok(true));
    assert_eq!(watcher.entered_stage(LifecycleStage::Background), Ok(false));
    assert_eq!(watcher.entered_rendering(), Ok(true));
}

#[test]
fn asking_for_a_stage_marks_the_current_one_as_seen() {
    let lifecycle = new_lifecycle();
    let mut watcher = LifecycleWatcher::new(&lifecycle);
    assert_eq!(watcher.entered_rendering(), Ok(false));
    assert_eq!(watcher.entered_lifecycle(), Ok(None));
}

#[test]
fn stage_that_was_read_is_not_entered() {
    let lifecycle = new_lifecycle();
    let mut watcher = LifecycleWatcher::new(&lifecycle);
    assert_eq!(watcher.lifecycle(), LifecycleStage::Background);
    assert_eq!(watcher.entered_background(), Ok(false));
    assert_eq!(watcher.entered_rendering(), Ok(false));
    lifecycle.send_replace(LifecycleStage::Background);
    assert_eq!(watcher.entered_rendering(), Ok(false));
    assert_eq!(watcher.entered_background(), Ok(true));
    lifecycle.send_replace(LifecycleStage::Rendering);
    assert_eq!(watcher.lifecycle(), LifecycleStage::Rendering);
    assert_eq!(watcher.entered_stage(LifecycleStage::Rendering), Ok(false));
    drop(lifecycle);
    assert_eq!(watcher.entered_stage(LifecycleStage::Rendering), Err(ContextDestroyed));
}

#[test]
fn stage_set_after_reading_is_entered() {
    let lifecycle = new_lifecycle();
    let mut watcher = LifecycleWatcher::new(&lifecycle);
    assert_eq!(watcher.lifecycle(), LifecycleStage::Background);
    lifecycle.send_replace(LifecycleStage::Rendering);
    assert_eq!(watcher.entered_lifecycle(), Ok(Some(LifecycleStage::Rendering)));
    assert_eq!(watcher.entered_rendering(), Ok(true));
}

#[test]
fn asking_for_the_wrong_stage_misses_nothing() {
    let lifecycle = new_lifecycle();
    let mut watcher = LifecycleWatcher::new(&lifecycle);
    lifecycle.send_replace(LifecycleStage::Rendering);
    assert_eq!(watcher.entered_background(), Ok(false));
    assert_eq!(watcher.entered_rendering(), Ok(true));
}

#[test]
fn missing_stage_of_a_destroyed_context_is_an_error() {
    let lifecycle = new_lifecycle();
    let mut watcher = LifecycleWatcher::new(&lifecycle);
    drop(lifecycle);
    assert_eq!(watcher.entered_background(), Ok(true));
    assert_eq!(watcher.entered_rendering(), Err(ContextDestroyed));
}

#[test]
fn poll_decides_what_a_lifecycle_watcher_reports() {
    let lifecycle = new_lifecycle();
    let mut watcher = LifecycleWatcher::new(&lifecycle);
    assert_eq!(watcher.lifecycle_after(Polled::Pending), Ok(None));
    assert_eq!(watcher.lifecycle_after(Polled::Closed), Err(ContextDestroyed));
    assert_eq!(watcher.lifecycle_after(Polled::Changed), Ok(Some(LifecycleStage::Background)));
}

#[test]
fn stages_are_compared() {
    assert!(is_stage(&LifecycleStage::Rendering, LifecycleStage::Rendering));
    assert!(!is_stage(&LifecycleStage::Rendering, LifecycleStage::Background));
    assert!(LifecycleStage::Rendering < LifecycleStage::Background);
}

#[test]
fn finding_decides_if_a_stage_was_entered() {
    assert_eq!(stage_found(None), Ok(false));
    assert_eq!(stage_found(Some(Ok(LifecycleStage::Rendering))), Ok(true));
    assert_eq!(stage_found(Some(Err(ContextDestroyed))), Err(ContextDestroyed));
}

#[test]
fn one_who_waits_after_reading_waits_for_a_change() {
    let lifecycle = new_lifecycle();
    let mut watcher = LifecycleWatcher::new(&lifecycle);
    assert!(!watcher.waits_for_change());
    let stage = watcher.lifecycle();
    assert!(watcher.waits_for_change());
    assert!(watcher.stage_reached(stage, LifecycleStage::Background));
    assert!(!watcher.stage_reached(stage, LifecycleStage::Rendering));
    lifecycle.send_replace(LifecycleStage::Rendering);
    assert_eq!(watcher.entered_lifecycle(), Ok(Some(LifecycleStage::Rendering)));
    assert!(!watcher.waits_for_change());
}
