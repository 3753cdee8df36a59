//! Tests of the verified core: translation, startup enumeration, and the
//! task state machine.

use devmon::event::{Event, RawEvent};
use devmon::event::{device_path, name_matches};
use devmon::task::{startup_events, ExitStatus, TaskInput, TaskState};

fn s(x: &str) -> String {
    x.to_owned()
}

#[test]
fn translate_attach_matching() {
    let got = Event::from_devd(&RawEvent::Attach(s("uhid2")));
    assert_eq!(got, Some(Event::Added(s("/dev/uhid2"))));
}

#[test]
fn translate_detach_matching() {
    let got = Event::from_devd(&RawEvent::Detach(s("uhid0")));
    assert_eq!(got, Some(Event::Removed(s("/dev/uhid0"))));
}

#[test]
fn translate_nonmatching_name() {
    assert_eq!(Event::from_devd(&RawEvent::Attach(s("kbd0"))), None);
    assert_eq!(Event::from_devd(&RawEvent::Detach(s("da0"))), None);
    assert_eq!(Event::from_devd(&RawEvent::Attach(s(""))), None);
}

#[test]
fn translate_other_kind() {
    assert_eq!(Event::from_devd(&RawEvent::Other), None);
}

#[test]
fn prefix_match_edges() {
    assert!(name_matches("uhid"));
    assert!(name_matches("uhid0"));
    assert!(name_matches("uhid12"));
    assert!(!name_matches("uhi"));
    assert!(!name_matches(""));
    assert!(!name_matches("xuhid0"));
    assert!(!name_matches("uhiX0"));
    assert!(!name_matches("kbd0"));
}

#[test]
fn device_path_join() {
    assert_eq!(device_path("uhid0"), s("/dev/uhid0"));
    assert_eq!(device_path(""), s("/dev/"));
}

#[test]
fn startup_keeps_listing_order() {
    let names = vec![s("uhid0"), s("uhid1"), s("kbd0")];
    let evs = startup_events(&names);
    assert_eq!(
        evs,
        vec![Event::Added(s("/dev/uhid0")), Event::Added(s("/dev/uhid1"))]
    );
}

#[test]
fn startup_empty_listing() {
    let evs = startup_events(&Vec::new());
    assert_eq!(evs, Vec::new());
}

#[test]
fn startup_no_matches() {
    let names = vec![s("kbd0"), s("ada0"), s("null")];
    assert_eq!(startup_events(&names), Vec::new());
}

#[test]
fn step_listing_enters_live() {
    let mut state = TaskState::Enumerating;
    let out = state.step(TaskInput::Listing(vec![s("uhid0"), s("kbd0")]));
    assert_eq!(state, TaskState::Live);
    assert_eq!(out, vec![Event::Added(s("/dev/uhid0"))]);
}

#[test]
fn step_listing_failure_is_fatal() {
    let mut state = TaskState::Enumerating;
    let out = state.step(TaskInput::ListingFailed);
    assert_eq!(state, TaskState::Ended(ExitStatus::ListingFailed));
    assert!(out.is_empty());
    assert!(!state.is_running());
}

#[test]
fn step_live_attach_appends() {
    let mut state = TaskState::Enumerating;
    let mut all = state.step(TaskInput::Listing(vec![s("uhid0")]));
    all.extend(state.step(TaskInput::Raw(RawEvent::Attach(s("uhid2")))));
    assert_eq!(
        all,
        vec![Event::Added(s("/dev/uhid0")), Event::Added(s("/dev/uhid2"))]
    );
    assert_eq!(state, TaskState::Live);
}

#[test]
fn step_live_detach_and_discard() {
    let mut state = TaskState::Enumerating;
    state.step(TaskInput::Listing(Vec::new()));
    let out = state.step(TaskInput::Raw(RawEvent::Detach(s("uhid1"))));
    assert_eq!(out, vec![Event::Removed(s("/dev/uhid1"))]);
    assert!(state.step(TaskInput::Raw(RawEvent::Attach(s("kbd0")))).is_empty());
    assert!(state.step(TaskInput::Raw(RawEvent::Other)).is_empty());
    assert_eq!(state, TaskState::Live);
}

#[test]
fn step_idle_keeps_running() {
    let mut state = TaskState::Enumerating;
    state.step(TaskInput::Listing(Vec::new()));
    assert!(state.step(TaskInput::Idle).is_empty());
    assert!(state.is_running());
}

#[test]
fn step_cancel_stops_for_good() {
    let mut state = TaskState::Enumerating;
    let out = state.step(TaskInput::Cancel);
    assert!(out.is_empty());
    assert_eq!(state, TaskState::Ended(ExitStatus::Cancelled));
    assert!(!state.is_running());
    // Nothing comes out of an ended task, whatever arrives afterwards.
    assert!(state.step(TaskInput::Raw(RawEvent::Attach(s("uhid9")))).is_empty());
    assert!(state.step(TaskInput::Listing(vec![s("uhid3")])).is_empty());
    assert_eq!(state, TaskState::Ended(ExitStatus::Cancelled));
}

#[test]
fn step_read_failure_is_final() {
    let mut state = TaskState::Enumerating;
    state.step(TaskInput::Listing(vec![s("uhid0")]));
    let out = state.step(TaskInput::ReadFailed);
    assert!(out.is_empty());
    assert_eq!(state, TaskState::Ended(ExitStatus::ReadFailed));
    assert!(!state.is_running());
    assert!(state.step(TaskInput::Raw(RawEvent::Attach(s("uhid4")))).is_empty());
    assert!(!state.is_running());
}

#[test]
fn step_delivery_failure_is_final() {
    let mut state = TaskState::Enumerating;
    state.step(TaskInput::Listing(Vec::new()));
    state.step(TaskInput::DeliveryFailed);
    assert_eq!(state, TaskState::Ended(ExitStatus::DeliveryFailed));
    assert!(state.step(TaskInput::Idle).is_empty());
}

#[test]
fn run_startup_before_live() {
    // A whole run: the startup events come first, in listing order, then
    // the live-phase events, in arrival order.
    let mut state = TaskState::Enumerating;
    let mut all = Vec::new();
    all.extend(state.step(TaskInput::Listing(vec![s("uhid0"), s("kbd0"), s("uhid1")])));
    all.extend(state.step(TaskInput::Idle));
    all.extend(state.step(TaskInput::Raw(RawEvent::Attach(s("uhid2")))));
    all.extend(state.step(TaskInput::Raw(RawEvent::Detach(s("uhid0")))));
    all.extend(state.step(TaskInput::Cancel));
    assert_eq!(
        all,
        vec![
            Event::Added(s("/dev/uhid0")),
            Event::Added(s("/dev/uhid1")),
            Event::Added(s("/dev/uhid2")),
            Event::Removed(s("/dev/uhid0")),
        ]
    );
    assert!(!state.is_running());
}
