//! Properties that relate the conversions and the collection of streams.
use crate::collect::{collected, converted};
use crate::config::{inline_pem, TinkCert};
use crate::hardware::{hardware_spec, network_spec};
use crate::wire::{WireActionStatus, WireHardware, WireWorkflow};
use crate::workflow::{
    action_status_spec, hardware_json, ActionStatusView, state_code, state_of, state_result, workflow_spec, State,
    Workflow, WorkflowActionStatus, WorkflowError, WorkflowView,
};
use vstd::prelude::*;
use vstd::string::StringSliceAdditionalSpecFns;

verus! {

/// Exactly the integers 0 to 4 name a state, and each names the state whose wire
/// integer it is; any other integer is rejected as an invalid state.
pub proof fn lemma_state_round_trip(i: i32)
    ensures
        (0 <= i <= 4) <==> state_of(i) is Some,
        state_of(i) matches Some(s) ==> state_code(s) == i && state_result(i) == Ok::<
            State,
            WorkflowError,
        >(s),
        !(0 <= i <= 4) ==> state_result(i) == Err::<State, WorkflowError>(
            WorkflowError::InvalidWorkflowState(i),
        ),
{
}

pub open spec fn has_timestamp(w: WireActionStatus) -> bool {
    w.created_at is Some
}

/// An event without a creation time is rejected as such, and collecting a stream
/// gives what collecting only its events with a creation time gives: those without
/// one are left out and the others are untouched.
pub proof fn lemma_missing_timestamp_dropped(ws: Seq<WireActionStatus>)
    ensures
        forall|w: WireActionStatus|
            !has_timestamp(w) ==> #[trigger] action_status_spec(w) == Err::<
                ActionStatusView,
                WorkflowError,
            >(WorkflowError::MissingCreatedAt),
        collected::<WireActionStatus, WorkflowActionStatus>(ws) == collected::<
            WireActionStatus,
            WorkflowActionStatus,
        >(ws.filter(|w: WireActionStatus| has_timestamp(w))),
    decreases ws.len(),
{
    let p = |w: WireActionStatus| has_timestamp(w);
    if ws.len() > 0 {
        lemma_missing_timestamp_dropped(ws.drop_last());
        let init = ws.drop_last();
        let last = ws.last();
        assert(init.push(last) =~= ws);
        init.lemma_filter_push(last, p);
        let f = init.filter(p);
        if p(last) {
            assert(f.push(last).drop_last() =~= f);
        } else {
            assert(converted::<WireActionStatus, WorkflowActionStatus>(last) =~= Seq::empty());
            assert(collected::<WireActionStatus, WorkflowActionStatus>(init) + Seq::empty()
                =~= collected::<WireActionStatus, WorkflowActionStatus>(init));
        }
    } else {
        reveal(Seq::filter);
        assert(ws.filter(p) =~= ws);
    }
}

/// A machine is always kept, with its identifier; where its network does not
/// convert, it is kept without one.
pub proof fn lemma_hardware_survives_network(h: WireHardware)
    ensures
        hardware_spec(h) is Some,
        hardware_spec(h)->Some_0.id == h.id@,
        h.network matches Some(n) && network_spec(n) is None ==> hardware_spec(h)->Some_0.network
            is None,
{
}

pub open spec fn hardware_parses(w: WireWorkflow) -> bool {
    hardware_json(w.hardware@) is Some
}

/// The domain workflow of a record whose state is valid and whose hardware text parses.
pub open spec fn parsed_workflow(w: WireWorkflow) -> WorkflowView {
    workflow_spec(w)->Ok_0
}

/// Where every state is valid, collecting workflows leaves out exactly the records
/// whose hardware text does not parse, keeps the others in their order, and so
/// yields as many as the stream had less those that do not parse.
pub proof fn lemma_unparseable_workflows_dropped(ws: Seq<WireWorkflow>)
    requires
        forall|i: int| 0 <= i < ws.len() ==> (#[trigger] state_of(ws[i].state)) is Some,
    ensures
        collected::<WireWorkflow, Workflow>(ws) == ws.filter(|w: WireWorkflow| hardware_parses(w)).map_values(
            |w: WireWorkflow| parsed_workflow(w),
        ),
        collected::<WireWorkflow, Workflow>(ws).len() == ws.len() - ws.filter(
            |w: WireWorkflow| !hardware_parses(w),
        ).len(),
    decreases ws.len(),
{
    let p = |w: WireWorkflow| hardware_parses(w);
    let q = |w: WireWorkflow| !hardware_parses(w);
    if ws.len() > 0 {
        let init = ws.drop_last();
        let last = ws.last();
        assert forall|i: int| 0 <= i < init.len() implies (#[trigger] state_of(init[i].state)) is Some by {
            assert(init[i] == ws[i]);
        }
        lemma_unparseable_workflows_dropped(init);
        assert(state_of(ws[ws.len() - 1].state) is Some);
        assert(init.push(last) =~= ws);
        init.lemma_filter_push(last, p);
        init.lemma_filter_push(last, q);
        let f = init.filter(p);
        if p(last) {
            assert(f.push(last).map_values(|w: WireWorkflow| parsed_workflow(w)) =~= f.map_values(
                |w: WireWorkflow| parsed_workflow(w),
            ).push(parsed_workflow(last)));
            assert(converted::<WireWorkflow, Workflow>(last) =~= seq![parsed_workflow(last)]);
        } else {
            assert(converted::<WireWorkflow, Workflow>(last) =~= Seq::empty());
            assert(collected::<WireWorkflow, Workflow>(init) + Seq::empty() =~= collected::<
                WireWorkflow,
                Workflow,
            >(init));
        }
    } else {
        reveal(Seq::filter);
        assert(ws.filter(p).map_values(|w: WireWorkflow| parsed_workflow(w)) =~= Seq::empty());
    }
}

/// PEM text given in place and the same bytes given as a buffer hand the channel
/// the same trust material.
pub proof fn lemma_inline_forms_agree(s: &str, b: Vec<u8>)
    requires
        b@ == s.spec_bytes(),
    ensures
        inline_pem(TinkCert::Str(s)) == inline_pem(TinkCert::Vec(b)),
        inline_pem(TinkCert::Vec(b)) == Some(b@),
{
}

} // verus!
