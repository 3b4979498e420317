use std::sync::Arc;

use dotview::poll::poll_iteration;
use dotview::poll::FetchResult;
use dotview::poll::PollOutcome;
use dotview::poll::PollReport;
use dotview::slot::SharedSlot;

#[test]
fn a_fresh_slot_is_empty() {
    let slot = SharedSlot::new();
    assert_eq!(slot.snapshot(), None);
}

#[test]
fn publishing_an_image_replaces_the_content() {
    let slot = SharedSlot::new();
    let report = slot.publish(PollOutcome::Image(b"one".to_vec()));
    assert_eq!(report, PollReport::Updated);
    assert_eq!(slot.snapshot(), Some(b"one".to_vec()));
    let report = slot.publish(PollOutcome::Image(b"two".to_vec()));
    assert_eq!(report, PollReport::Updated);
    assert_eq!(slot.snapshot(), Some(b"two".to_vec()));
}

#[test]
fn publishing_no_task_or_failure_keeps_the_content() {
    let slot = SharedSlot::new();
    slot.publish(PollOutcome::Image(b"keep".to_vec()));
    assert_eq!(slot.publish(PollOutcome::NoTask), PollReport::NoTask);
    assert_eq!(slot.snapshot(), Some(b"keep".to_vec()));
    assert_eq!(slot.publish(PollOutcome::Failure), PollReport::Failed);
    assert_eq!(slot.snapshot(), Some(b"keep".to_vec()));
}

#[test]
fn a_snapshot_is_a_copy() {
    let slot = SharedSlot::new();
    slot.publish(PollOutcome::Image(b"stable".to_vec()));
    let mut copy = slot.snapshot().unwrap();
    copy.clear();
    assert_eq!(slot.snapshot(), Some(b"stable".to_vec()));
}

#[test]
fn the_slot_can_be_shared() {
    let slot = Arc::new(SharedSlot::new());
    let other = Arc::clone(&slot);
    other.publish(PollOutcome::Image(b"shared".to_vec()));
    assert_eq!(slot.snapshot(), Some(b"shared".to_vec()));
}

#[test]
fn an_iteration_with_a_network_error_keeps_the_content() {
    let slot = SharedSlot::new();
    slot.publish(PollOutcome::Image(b"keep".to_vec()));
    let report = poll_iteration(&slot, FetchResult::NetworkError);
    assert_eq!(report, PollReport::Failed);
    assert_eq!(slot.snapshot(), Some(b"keep".to_vec()));
}

#[test]
fn an_iteration_with_a_no_task_body_keeps_the_content() {
    let slot = SharedSlot::new();
    slot.publish(PollOutcome::Image(b"keep".to_vec()));
    let report = poll_iteration(&slot, FetchResult::Body(br#"{"data":null}"#.to_vec()));
    assert_eq!(report, PollReport::NoTask);
    assert_eq!(slot.snapshot(), Some(b"keep".to_vec()));
}
