//! The model of the server's goal registry: what it holds, which calls change
//! it, and how.

use vstd::prelude::*;

use crate::action::goal::{GoalId, GoalInfo, GoalStatus, GoalStatusEnum};
use crate::action::GoalEndStatus;
use crate::interfaces::builtin_interfaces::Time;
use crate::interfaces::unique_identifier_msgs::UUID;
use crate::service::request_id::RmwRequestId;

verus! {

/// What the server keeps of one goal.
pub struct AsyncGoal<G> {
    /// Where the goal stands.
    pub status: GoalStatusEnum,
    /// When the goal was accepted, once it has been.
    pub accepted_time: Option<Time>,
    /// The goal itself.
    pub goal: G,
}

/// The registry: what the server keeps of each goal, by the number of the
/// goal's id.
pub type Registry<G> = Map<u128, AsyncGoal<G>>;

/// The goal with another status and all else unchanged.
pub open spec fn with_status<G>(goal: AsyncGoal<G>, status: GoalStatusEnum) -> AsyncGoal<G> {
    AsyncGoal { status, accepted_time: goal.accepted_time, goal: goal.goal }
}

/// The entry that the status broadcast holds for a goal: its id, its status,
/// and its acceptance time, or the zero time where it has none.
pub open spec fn status_entry<G>(id: u128, goal: AsyncGoal<G>) -> GoalStatus {
    GoalStatus {
        goal_info: GoalInfo {
            goal_id: UUID { value: id },
            stamp: match goal.accepted_time {
                Some(stamp) => stamp,
                None => Time::spec_zero(),
            },
        },
        status: goal.status,
    }
}

/// `list` is the status broadcast of `goals`: one entry for each goal and no
/// others, each with the goal's current status, in the order of the goal ids.
pub open spec fn is_status_list_of<G>(list: Seq<GoalStatus>, goals: Registry<G>) -> bool {
    &&& forall|i: int|
        0 <= i < list.len() ==> {
            let id = (#[trigger] list[i]).goal_info.goal_id@;
            goals.contains_key(id) && list[i] == status_entry(id, goals[id])
        }
    &&& forall|i: int, j: int|
        0 <= i < j < list.len() ==> (#[trigger] list[i]).goal_info.goal_id@ < (
        #[trigger] list[j]).goal_info.goal_id@
    &&& forall|id: u128| #[trigger]
        goals.contains_key(id) ==> exists|i: int|
            0 <= i < list.len() && (#[trigger] list[i]).goal_info.goal_id@ == id
}

/// Whether a cancel request picks out the goal `goal_id` that was accepted at
/// `accepted_time`, if it was accepted at all.
///
/// A zero goal id asks for no goal in particular, a zero stamp for no time in
/// particular; both zero ask for every goal. A stamp that is not zero picks
/// the goals accepted strictly before it.
pub open spec fn spec_cancel_selects(
    request: GoalInfo,
    goal_id: GoalId,
    accepted_time: Option<Time>,
) -> bool {
    let accepted_before = accepted_time matches Some(at) && at.spec_before(request.stamp);
    if request.goal_id == UUID::spec_zero() {
        request.stamp == Time::spec_zero() || accepted_before
    } else if request.stamp == Time::spec_zero() {
        request.goal_id == goal_id
    } else {
        request.goal_id == goal_id || accepted_before
    }
}

/// Whether the cancel request is a request to cancel this goal of the
/// registry: the goal can still be canceled, and the request picks it out.
pub open spec fn is_cancel_candidate<G>(request: GoalInfo, id: u128, goal: AsyncGoal<G>) -> bool {
    goal.status.spec_is_cancelable() && spec_cancel_selects(
        request,
        UUID { value: id },
        goal.accepted_time,
    )
}

/// `list` holds the goals of the registry that the request asks to cancel:
/// each of them once and no others, in the order of the goal ids.
pub open spec fn is_cancel_list_of<G>(list: Seq<GoalId>, request: GoalInfo, goals: Registry<G>) -> bool {
    &&& forall|i: int|
        0 <= i < list.len() ==> {
            let id = (#[trigger] list[i])@;
            goals.contains_key(id) && is_cancel_candidate(request, id, goals[id])
        }
    &&& forall|i: int, j: int| 0 <= i < j < list.len() ==> (#[trigger] list[i])@ < (#[trigger] list[j])@
    &&& forall|id: u128|
        #![trigger goals.contains_key(id)]
        goals.contains_key(id) && is_cancel_candidate(request, id, goals[id]) ==> list.contains(
            UUID { value: id },
        )
}

/// Whether every goal of the registry has an acceptance time exactly if its
/// status is not `Unknown`. A registry starts out so and every call keeps it
/// so.
pub open spec fn is_well_formed<G>(goals: Registry<G>) -> bool {
    forall|id: u128| #[trigger]
        goals.contains_key(id) ==> (goals[id].status is Unknown <==> goals[id].accepted_time
            is None)
}

/// Whether the server starts canceling the goal when it is named in the answer
/// to a cancel request: the goal is known, it is `Accepted` or `Executing`, and
/// it has an acceptance time. A goal that has ended or is `Canceling` already
/// is not canceled again.
pub open spec fn starts_canceling<G>(goals: Registry<G>, goal_id: GoalId) -> bool {
    &&& goals.contains_key(goal_id@)
    &&& goals[goal_id@].status.spec_is_cancelable()
    &&& goals[goal_id@].accepted_time is Some
}

/// The goals that start canceling when the server answers a cancel request
/// with `goals_to_cancel`, each with its acceptance time, in the order given
/// and as often as given.
pub open spec fn canceling_infos<G>(goals: Registry<G>, goals_to_cancel: Seq<GoalId>) -> Seq<GoalInfo>
    decreases goals_to_cancel.len(),
{
    if goals_to_cancel.len() == 0 {
        Seq::empty()
    } else {
        let before = canceling_infos(goals, goals_to_cancel.drop_last());
        let goal_id = goals_to_cancel.last();
        if starts_canceling(goals, goal_id) {
            before.push(GoalInfo { goal_id, stamp: goals[goal_id@].accepted_time->0 })
        } else {
            before
        }
    }
}

/// The registry after the server has answered a cancel request with
/// `goals_to_cancel`: the goals among them that start canceling have status
/// `Canceling`, and nothing else has changed.
pub open spec fn with_canceling<G>(goals: Registry<G>, goals_to_cancel: Seq<GoalId>) -> Registry<G> {
    Map::new(
        |id: u128| goals.contains_key(id),
        |id: u128|
            if goals_to_cancel.contains(UUID { value: id }) && starts_canceling(
                goals,
                UUID { value: id },
            ) {
                with_status(goals[id], GoalStatusEnum::Canceling)
            } else {
                goals[id]
            },
    )
}

/// A call of the server that may change the registry, with the arguments that
/// the change depends on.
pub enum ServerCall<G> {
    /// A goal request arrived.
    ReceiveNewGoal { goal_id: GoalId, goal: G },
    /// The server accepts a new goal at time `now`.
    AcceptGoal { goal_id: GoalId, now: Time },
    /// The server rejects a new goal.
    RejectGoal { goal_id: GoalId },
    /// The server starts to execute an accepted goal.
    StartExecutingGoal { goal_id: GoalId },
    /// The server reports progress on an executing goal.
    PublishFeedback { goal_id: GoalId },
    /// The server ends a goal and sends its result.
    SendResultResponse { goal_id: GoalId, result_status: GoalEndStatus },
    /// The server aborts an accepted or executing goal.
    AbortGoal { goal_id: GoalId },
    /// The server answers a cancel request, naming the goals that it will
    /// cancel.
    RespondToCancelRequests { goals_to_cancel: Seq<GoalId> },
}

/// The statuses from which a call that names one goal takes effect.
pub open spec fn admits<G>(call: ServerCall<G>, status: GoalStatusEnum) -> bool {
    match call {
        ServerCall::AcceptGoal { .. } => status is Unknown,
        ServerCall::RejectGoal { .. } => status is Unknown,
        ServerCall::StartExecutingGoal { .. } => status is Accepted,
        ServerCall::PublishFeedback { .. } => status is Executing,
        ServerCall::SendResultResponse { .. } => status is Accepted || status is Executing
            || status is Canceling,
        ServerCall::AbortGoal { .. } => status is Accepted || status is Executing,
        _ => true,
    }
}

/// Whether the call takes effect. The arrival of a goal does where the goal is
/// new, the answer to a cancel request always does, and a call that names a
/// goal does where the goal is known and its status admits the call. A call
/// that takes no effect leaves the registry as it is.
pub open spec fn takes_effect<G>(goals: Registry<G>, call: ServerCall<G>) -> bool {
    match call {
        ServerCall::ReceiveNewGoal { goal_id, .. } => !goals.contains_key(goal_id@),
        ServerCall::AcceptGoal { goal_id, .. } => goals.contains_key(goal_id@) && admits(
            call,
            goals[goal_id@].status,
        ),
        ServerCall::RejectGoal { goal_id } => goals.contains_key(goal_id@) && admits(
            call,
            goals[goal_id@].status,
        ),
        ServerCall::StartExecutingGoal { goal_id } => goals.contains_key(goal_id@) && admits(
            call,
            goals[goal_id@].status,
        ),
        ServerCall::PublishFeedback { goal_id } => goals.contains_key(goal_id@) && admits(
            call,
            goals[goal_id@].status,
        ),
        ServerCall::SendResultResponse { goal_id, .. } => goals.contains_key(goal_id@) && admits(
            call,
            goals[goal_id@].status,
        ),
        ServerCall::AbortGoal { goal_id } => goals.contains_key(goal_id@) && admits(
            call,
            goals[goal_id@].status,
        ),
        ServerCall::RespondToCancelRequests { .. } => true,
    }
}

/// The registry after a call.
pub open spec fn goals_after<G>(goals: Registry<G>, call: ServerCall<G>) -> Registry<G> {
    if !takes_effect(goals, call) {
        goals
    } else {
        match call {
            ServerCall::ReceiveNewGoal { goal_id, goal } => goals.insert(
                goal_id@,
                AsyncGoal { status: GoalStatusEnum::Unknown, accepted_time: None, goal },
            ),
            ServerCall::AcceptGoal { goal_id, now } => goals.insert(
                goal_id@,
                AsyncGoal {
                    status: GoalStatusEnum::Accepted,
                    accepted_time: Some(now),
                    goal: goals[goal_id@].goal,
                },
            ),
            ServerCall::RejectGoal { .. } => goals,
            ServerCall::StartExecutingGoal { goal_id } => goals.insert(
                goal_id@,
                with_status(goals[goal_id@], GoalStatusEnum::Executing),
            ),
            ServerCall::PublishFeedback { .. } => goals,
            ServerCall::SendResultResponse { goal_id, result_status } => goals.insert(
                goal_id@,
                with_status(goals[goal_id@], result_status.spec_status()),
            ),
            ServerCall::AbortGoal { goal_id } => goals.insert(
                goal_id@,
                with_status(goals[goal_id@], GoalStatusEnum::Aborted),
            ),
            ServerCall::RespondToCancelRequests { goals_to_cancel } => with_canceling(
                goals,
                goals_to_cancel,
            ),
        }
    }
}

/// What a server that waits for the result request of goal `awaited` makes of
/// a result request that arrives: the awaited one ends the wait, with its
/// request id; one for another goal is put aside under that goal's id, in
/// place of an earlier one for the same goal.
pub open spec fn result_requests_after(
    result_requests: Map<u128, RmwRequestId>,
    awaited: GoalId,
    req_id: RmwRequestId,
    asked: GoalId,
) -> Map<u128, RmwRequestId> {
    if asked == awaited {
        result_requests
    } else {
        result_requests.insert(asked@, req_id)
    }
}

/// The result requests put aside, after the server has been asked to end a
/// goal and send its result: where the call takes effect the goal's request is
/// answered and no longer waits; where it does not, nothing changes.
pub open spec fn result_requests_after_result<G>(
    result_requests: Map<u128, RmwRequestId>,
    goals: Registry<G>,
    goal_id: GoalId,
    result_status: GoalEndStatus,
) -> Map<u128, RmwRequestId> {
    if takes_effect(goals, ServerCall::SendResultResponse { goal_id, result_status }) {
        result_requests.remove(goal_id@)
    } else {
        result_requests
    }
}

} // verus!
