use tinkc::collect::{collect, Collector};
use tinkc::wire::{WireActionStatus, WireTimestamp, WireWorkflow};
use tinkc::workflow::{CreatedAt, State, Workflow, WorkflowActionStatus, WorkflowError};

fn wire_workflow(id: &str, hardware: &str, state: i32) -> WireWorkflow {
    WireWorkflow { id: id.to_string(), hardware: hardware.to_string(), state }
}

fn wire_status(task: &str, created_at: Option<WireTimestamp>, state: i32, seconds: i64) -> WireActionStatus {
    WireActionStatus {
        workflow_id: "wf".to_string(),
        task_name: task.to_string(),
        action_name: "act".to_string(),
        action_status: state,
        seconds,
        message: "msg".to_string(),
        created_at,
        worker_id: "worker".to_string(),
    }
}

const HW: &str = "{\"device\":\"d1\",\"image\":\"ubuntu\"}";

#[test]
fn state_from_valid_integers() {
    assert_eq!(State::try_from(0), Ok(State::Pending));
    assert_eq!(State::try_from(1), Ok(State::Running));
    assert_eq!(State::try_from(2), Ok(State::Failed));
    assert_eq!(State::try_from(3), Ok(State::Timeout));
    assert_eq!(State::try_from(4), Ok(State::Success));
}

#[test]
fn state_from_invalid_integers() {
    assert_eq!(State::try_from(5), Err(WorkflowError::InvalidWorkflowState(5)));
    assert_eq!(State::try_from(-1), Err(WorkflowError::InvalidWorkflowState(-1)));
    assert_eq!(State::try_from(i32::MAX), Err(WorkflowError::InvalidWorkflowState(i32::MAX)));
}

#[test]
fn workflow_stream_keeps_valid_record() {
    let wires = vec![wire_workflow("a", HW, 4), wire_workflow("b", HW, 9)];
    let got: Vec<Workflow> = collect(wires);
    assert_eq!(got.len(), 1);
    assert_eq!(got[0].id, "a");
    assert_eq!(got[0].state, State::Success);
    assert_eq!(got[0].hardware.device, "d1");
    assert_eq!(got[0].hardware.image, "ubuntu");
}

#[test]
fn workflow_stream_drops_unparseable_hardware_in_order() {
    let wires = vec![
        wire_workflow("a", HW, 0),
        wire_workflow("b", "not json", 1),
        wire_workflow("c", "{\"device\":\"d2\",\"image\":\"debian\",\"extra\":1}", 2),
        wire_workflow("d", "{\"device\":\"d3\"}", 3),
        wire_workflow("e", HW, 4),
    ];
    let got: Vec<Workflow> = collect(wires);
    let ids: Vec<&str> = got.iter().map(|w| w.id.as_str()).collect();
    assert_eq!(ids, vec!["a", "c", "e"]);
    assert_eq!(got[1].hardware.device, "d2");
    assert_eq!(got[1].hardware.image, "debian");
}

#[test]
fn workflow_errors() {
    assert_eq!(
        Workflow::try_from(wire_workflow("a", HW, 7)).err(),
        Some(WorkflowError::InvalidWorkflowState(7))
    );
    assert_eq!(
        Workflow::try_from(wire_workflow("a", "[1,", 1)).err(),
        Some(WorkflowError::MalformedHardware)
    );
    assert_eq!(
        Workflow::from_decoded(wire_workflow("a", HW, 1), None).err(),
        Some(WorkflowError::MalformedHardware)
    );
}

#[test]
fn workflow_from_decoded_copies_fields() {
    let w = Workflow::from_decoded(
        wire_workflow("id1", "ignored", 2),
        Some(("dev".to_string(), "img".to_string())),
    )
    .unwrap();
    assert_eq!(w.id, "id1");
    assert_eq!(w.state, State::Failed);
    assert_eq!(w.hardware.device, "dev");
    assert_eq!(w.hardware.image, "img");
}

#[test]
fn action_status_converts() {
    let ts = WireTimestamp { seconds: 1431648000, nanos: 5 };
    let s = WorkflowActionStatus::try_from(wire_status("t", Some(ts), 1, 30)).unwrap();
    assert_eq!(s.task_name, "t");
    assert_eq!(s.action_name, "act");
    assert_eq!(s.action_status, State::Running);
    assert_eq!(s.seconds, 30);
    assert_eq!(s.created_at, CreatedAt { seconds: 1431648000, nanos: 5 });
    assert_eq!(s.message, "msg");
    assert_eq!(s.worker_id, "worker");
}

#[test]
fn action_status_errors() {
    let ts = WireTimestamp { seconds: 0, nanos: 0 };
    assert_eq!(
        WorkflowActionStatus::try_from(wire_status("t", None, 1, 30)).err(),
        Some(WorkflowError::MissingCreatedAt)
    );
    let neg = WireTimestamp { seconds: 0, nanos: -1 };
    assert_eq!(
        WorkflowActionStatus::try_from(wire_status("t", Some(neg), 1, 30)).err(),
        Some(WorkflowError::InvalidTimestamp)
    );
    let big = WireTimestamp { seconds: 0, nanos: 2_000_000_000 };
    assert_eq!(
        WorkflowActionStatus::try_from(wire_status("t", Some(big), 1, 30)).err(),
        Some(WorkflowError::InvalidTimestamp)
    );
    let far = WireTimestamp { seconds: i64::MAX, nanos: 0 };
    assert_eq!(
        WorkflowActionStatus::try_from(wire_status("t", Some(far), 1, 30)).err(),
        Some(WorkflowError::InvalidTimestamp)
    );
    assert_eq!(
        WorkflowActionStatus::try_from(wire_status("t", Some(ts), 5, 30)).err(),
        Some(WorkflowError::InvalidWorkflowState(5))
    );
    let long = i32::MAX as i64 + 1;
    assert_eq!(
        WorkflowActionStatus::try_from(wire_status("t", Some(ts), 1, long)).err(),
        Some(WorkflowError::DurationOverflow(long))
    );
}

#[test]
fn action_status_leap_second() {
    let leap = WireTimestamp { seconds: 59, nanos: 1_500_000_000 };
    assert!(WorkflowActionStatus::try_from(wire_status("t", Some(leap), 4, 1)).is_ok());
    let not_leap = WireTimestamp { seconds: 58, nanos: 1_500_000_000 };
    assert_eq!(
        WorkflowActionStatus::try_from(wire_status("t", Some(not_leap), 4, 1)).err(),
        Some(WorkflowError::InvalidTimestamp)
    );
}

#[test]
fn action_status_from_checked_follows_verdict() {
    let ts = WireTimestamp { seconds: 0, nanos: 0 };
    assert_eq!(
        WorkflowActionStatus::from_checked(wire_status("t", Some(ts), 1, 3), false).err(),
        Some(WorkflowError::InvalidTimestamp)
    );
    assert!(WorkflowActionStatus::from_checked(wire_status("t", Some(ts), 1, 3), true).is_ok());
}

#[test]
fn events_without_timestamp_are_dropped() {
    let ts = WireTimestamp { seconds: 100, nanos: 0 };
    let wires = vec![
        wire_status("first", Some(ts), 0, 1),
        wire_status("missing", None, 0, 1),
        wire_status("second", Some(ts), 4, 2),
    ];
    let got: Vec<WorkflowActionStatus> = collect(wires);
    let names: Vec<&str> = got.iter().map(|s| s.task_name.as_str()).collect();
    assert_eq!(names, vec!["first", "second"]);
}

#[test]
fn collector_step_by_step() {
    let mut c: Collector<Workflow> = Collector::new();
    c.accept(wire_workflow("x", HW, 3));
    c.accept(wire_workflow("y", HW, 11));
    c.accept(wire_workflow("z", HW, 0));
    let got = c.finish();
    let ids: Vec<&str> = got.iter().map(|w| w.id.as_str()).collect();
    assert_eq!(ids, vec!["x", "z"]);
}

#[test]
fn empty_stream_gives_empty_sequence() {
    let got: Vec<Workflow> = collect(Vec::new());
    assert!(got.is_empty());
}
