//! Workflows and their action events in validated form.
use crate::collect::FromWire;
use crate::wire::{WireActionStatus, WireTimestamp, WireWorkflow};
use vstd::prelude::*;

verus! {

/// Lifecycle of a workflow or of one of its actions.
#[derive(Clone, Copy, Debug, PartialEq, Eq, Structural)]
pub enum State {
    Pending,
    Running,
    Failed,
    Timeout,
    Success,
}

/// Why a wire record could not be turned into its domain form.
#[derive(Clone, Copy, Debug, PartialEq, Eq, Structural)]
pub enum WorkflowError {
    InvalidWorkflowState(i32),
    MissingCreatedAt,
    MalformedHardware,
    InvalidTimestamp,
    DurationOverflow(i64),
}

/// The state that a wire integer stands for, if any.
pub open spec fn state_of(i: i32) -> Option<State> {
    if i == 0 {
        Some(State::Pending)
    } else if i == 1 {
        Some(State::Running)
    } else if i == 2 {
        Some(State::Failed)
    } else if i == 3 {
        Some(State::Timeout)
    } else if i == 4 {
        Some(State::Success)
    } else {
        None
    }
}

/// The wire integer of a state.
pub open spec fn state_code(s: State) -> i32 {
    match s {
        State::Pending => 0,
        State::Running => 1,
        State::Failed => 2,
        State::Timeout => 3,
        State::Success => 4,
    }
}

pub open spec fn state_result(i: i32) -> Result<State, WorkflowError> {
    match state_of(i) {
        Some(s) => Ok(s),
        None => Err(WorkflowError::InvalidWorkflowState(i)),
    }
}

impl State {
    pub fn try_from(i: i32) -> (r: Result<State, WorkflowError>)
        ensures
            r == state_result(i),
    {
        match i {
            0 => Ok(State::Pending),
            1 => Ok(State::Running),
            2 => Ok(State::Failed),
            3 => Ok(State::Timeout),
            4 => Ok(State::Success),
            e => Err(WorkflowError::InvalidWorkflowState(e)),
        }
    }
}

/// What serde_json makes of a hardware descriptor: the text of its `device` and
/// `image` members, or nothing when the text is no JSON object with both as strings.
pub uninterp spec fn hardware_json(text: Seq<char>) -> Option<(Seq<char>, Seq<char>)>;

/// Whether chrono accepts seconds since the epoch and a nanosecond part as a date and time.
pub uninterp spec fn chrono_accepts(seconds: i64, nanos: u32) -> bool;

/// Relies on serde_json::from_str, Value::get and Value::as_str: parses the text as
/// JSON and reads the two string members; the result depends on the text alone.
#[verifier::external_body]
fn decode_hardware(text: &str) -> (r: Option<(String, String)>)
    ensures
        decoded_view(r) == hardware_json(text@),
{
    let v: serde_json::Value = serde_json::from_str(text).ok()?;
    let device = v.get("device")?.as_str()?;
    let image = v.get("image")?.as_str()?;
    Some((device.to_string(), image.to_string()))
}

/// Relies on chrono::DateTime::from_timestamp, which returns `None` for a nanosecond
/// part of two seconds or more, and for one of a second or more unless the second is
/// the last of a minute (a leap second); else it depends on the range of dates.
#[verifier::external_body]
fn timestamp_accepted(seconds: i64, nanos: u32) -> (r: bool)
    ensures
        r == chrono_accepts(seconds, nanos),
        nanos >= 2_000_000_000 ==> !r,
        nanos >= 1_000_000_000 && seconds % 60 != 59 ==> !r,
{
    chrono::DateTime::from_timestamp(seconds, nanos).is_some()
}

pub open spec fn decoded_view(d: Option<(String, String)>) -> Option<(Seq<char>, Seq<char>)> {
    match d {
        Some((a, b)) => Some((a@, b@)),
        None => None,
    }
}

/// The device and the image that a workflow runs on.
#[derive(Clone, Debug)]
pub struct WorkflowHardware {
    pub device: String,
    pub image: String,
}

/// A validated workflow.
#[derive(Clone, Debug)]
pub struct Workflow {
    pub id: String,
    pub hardware: WorkflowHardware,
    pub state: State,
}

pub struct WorkflowView {
    pub id: Seq<char>,
    pub device: Seq<char>,
    pub image: Seq<char>,
    pub state: State,
}

impl View for Workflow {
    type V = WorkflowView;

    open spec fn view(&self) -> WorkflowView {
        WorkflowView {
            id: self.id@,
            device: self.hardware.device@,
            image: self.hardware.image@,
            state: self.state,
        }
    }
}

/// A workflow built from its wire form and the decoded hardware descriptor:
/// the state is checked first, then the descriptor.
pub open spec fn workflow_from(
    w: WireWorkflow,
    decoded: Option<(Seq<char>, Seq<char>)>,
) -> Result<WorkflowView, WorkflowError> {
    match state_of(w.state) {
        None => Err(WorkflowError::InvalidWorkflowState(w.state)),
        Some(s) => match decoded {
            None => Err(WorkflowError::MalformedHardware),
            Some((device, image)) => Ok(WorkflowView { id: w.id@, device, image, state: s }),
        },
    }
}

pub open spec fn workflow_spec(w: WireWorkflow) -> Result<WorkflowView, WorkflowError> {
    workflow_from(w, hardware_json(w.hardware@))
}

/// The view of a conversion's result.
pub open spec fn result_view<T: View>(r: Result<T, WorkflowError>) -> Result<T::V, WorkflowError> {
    match r {
        Ok(x) => Ok(x@),
        Err(e) => Err(e),
    }
}

impl Workflow {
    /// Builds a workflow from its wire form and what decoding its hardware text gave.
    pub fn from_decoded(wf: WireWorkflow, decoded: Option<(String, String)>) -> (r: Result<
        Workflow,
        WorkflowError,
    >)
        ensures
            result_view(r) == workflow_from(wf, decoded_view(decoded)),
    {
        let state = match State::try_from(wf.state) {
            Ok(s) => s,
            Err(e) => return Err(e),
        };
        match decoded {
            None => Err(WorkflowError::MalformedHardware),
            Some((device, image)) => Ok(
                Workflow { id: wf.id, hardware: WorkflowHardware { device, image }, state },
            ),
        }
    }

    pub fn try_from(wf: WireWorkflow) -> (r: Result<Workflow, WorkflowError>)
        ensures
            result_view(r) == workflow_spec(wf),
    {
        let decoded = decode_hardware(wf.hardware.as_str());
        Workflow::from_decoded(wf, decoded)
    }
}

/// A point in time that chrono accepts, as seconds since the Unix epoch and a
/// nanosecond part.
#[derive(Clone, Copy, Debug, PartialEq, Eq, Structural)]
pub struct CreatedAt {
    pub seconds: i64,
    pub nanos: u32,
}

/// A validated event of a workflow's action.
#[derive(Clone, Debug)]
pub struct WorkflowActionStatus {
    pub task_name: String,
    pub action_name: String,
    pub action_status: State,
    pub seconds: i32,
    pub created_at: CreatedAt,
    pub message: String,
    pub worker_id: String,
}

pub struct ActionStatusView {
    pub task_name: Seq<char>,
    pub action_name: Seq<char>,
    pub action_status: State,
    pub seconds: i32,
    pub created_at: CreatedAt,
    pub message: Seq<char>,
    pub worker_id: Seq<char>,
}

impl View for WorkflowActionStatus {
    type V = ActionStatusView;

    open spec fn view(&self) -> ActionStatusView {
        ActionStatusView {
            task_name: self.task_name@,
            action_name: self.action_name@,
            action_status: self.action_status,
            seconds: self.seconds,
            created_at: self.created_at,
            message: self.message@,
            worker_id: self.worker_id@,
        }
    }
}

/// Whether a wire timestamp is to be handed to chrono: its nanosecond part is not negative.
pub open spec fn timestamp_of(t: WireTimestamp) -> Option<CreatedAt> {
    if t.nanos >= 0 {
        Some(CreatedAt { seconds: t.seconds, nanos: t.nanos as u32 })
    } else {
        None
    }
}

/// An action event built from its wire form, given chrono's verdict on its
/// timestamp. The checks come in this order: timestamp present, nanosecond part
/// not negative, timestamp accepted, state, duration within `i32`.
pub open spec fn action_status_from(s: WireActionStatus, accepted: bool) -> Result<
    ActionStatusView,
    WorkflowError,
> {
    match s.created_at {
        None => Err(WorkflowError::MissingCreatedAt),
        Some(t) => match timestamp_of(t) {
            None => Err(WorkflowError::InvalidTimestamp),
            Some(c) => if !accepted {
                Err(WorkflowError::InvalidTimestamp)
            } else {
                match state_of(s.action_status) {
                    None => Err(WorkflowError::InvalidWorkflowState(s.action_status)),
                    Some(st) => if s.seconds < i32::MIN || s.seconds > i32::MAX {
                        Err(WorkflowError::DurationOverflow(s.seconds))
                    } else {
                        Ok(
                            ActionStatusView {
                                task_name: s.task_name@,
                                action_name: s.action_name@,
                                action_status: st,
                                seconds: s.seconds as i32,
                                created_at: c,
                                message: s.message@,
                                worker_id: s.worker_id@,
                            },
                        )
                    },
                }
            },
        },
    }
}

/// chrono's verdict on the timestamp of a wire event, where it is consulted.
pub open spec fn chrono_verdict(s: WireActionStatus) -> bool {
    match s.created_at {
        Some(t) => match timestamp_of(t) {
            Some(c) => chrono_accepts(c.seconds, c.nanos),
            None => false,
        },
        None => false,
    }
}

pub open spec fn action_status_spec(s: WireActionStatus) -> Result<ActionStatusView, WorkflowError> {
    action_status_from(s, chrono_verdict(s))
}

impl WorkflowActionStatus {
    /// Builds an action event from its wire form, given whether chrono accepts its
    /// timestamp (ignored where the timestamp is absent or has a negative nanosecond part).
    pub fn from_checked(status: WireActionStatus, accepted: bool) -> (r: Result<
        WorkflowActionStatus,
        WorkflowError,
    >)
        ensures
            result_view(r) == action_status_from(status, accepted),
    {
        let t = match status.created_at {
            None => return Err(WorkflowError::MissingCreatedAt),
            Some(t) => t,
        };
        if t.nanos < 0 || !accepted {
            return Err(WorkflowError::InvalidTimestamp);
        }
        let created_at = CreatedAt { seconds: t.seconds, nanos: t.nanos as u32 };
        let action_status = match State::try_from(status.action_status) {
            Ok(s) => s,
            Err(e) => return Err(e),
        };
        if status.seconds < i32::MIN as i64 || status.seconds > i32::MAX as i64 {
            return Err(WorkflowError::DurationOverflow(status.seconds));
        }
        Ok(
            WorkflowActionStatus {
                task_name: status.task_name,
                action_name: status.action_name,
                action_status,
                seconds: status.seconds as i32,
                created_at,
                message: status.message,
                worker_id: status.worker_id,
            },
        )
    }

    pub fn try_from(status: WireActionStatus) -> (r: Result<WorkflowActionStatus, WorkflowError>)
        ensures
            result_view(r) == action_status_spec(status),
    {
        let accepted = match status.created_at {
            Some(t) => t.nanos >= 0 && timestamp_accepted(t.seconds, t.nanos as u32),
            None => false,
        };
        WorkflowActionStatus::from_checked(status, accepted)
    }
}

/// The successful outcome of a conversion, if any.
pub open spec fn accepted<V>(r: Result<V, WorkflowError>) -> Option<V> {
    match r {
        Ok(v) => Some(v),
        Err(_) => None,
    }
}

impl FromWire<WireWorkflow> for Workflow {
    open spec fn from_wire_spec(w: WireWorkflow) -> Option<WorkflowView> {
        accepted(workflow_spec(w))
    }

    fn from_wire(w: WireWorkflow) -> (r: Option<Workflow>) {
        match Workflow::try_from(w) {
            Ok(x) => Some(x),
            Err(_) => None,
        }
    }
}

impl FromWire<WireActionStatus> for WorkflowActionStatus {
    open spec fn from_wire_spec(w: WireActionStatus) -> Option<ActionStatusView> {
        accepted(action_status_spec(w))
    }

    fn from_wire(w: WireActionStatus) -> (r: Option<WorkflowActionStatus>) {
        match WorkflowActionStatus::try_from(w) {
            Ok(x) => Some(x),
            Err(_) => None,
        }
    }
}

} // verus!
