//! The client's side of an action: the requests it makes, and what it keeps
//! of the replies, feedback and statuses that arrive.
//!
//! The client here decides; it does not talk. Its methods build the message
//! to send, or say what an arrived message means to the caller.

use rustdds::dds::ReadError;
use std::marker::PhantomData;
use vstd::prelude::*;

use crate::action::goal::{
    first_status_of, CancelGoalRequest, CancelGoalResponse, GoalId, GoalInfo, GoalStatus,
    GoalStatusArray, GoalStatusEnum,
};
use crate::action::{
    ActionTypes, FeedbackMessage, GetResultRequest, GetResultResponse, SendGoalRequest,
    SendGoalResponse,
};
use crate::interfaces::builtin_interfaces::Time;
use crate::interfaces::unique_identifier_msgs::UUID;
use crate::service::client::{correlate, spec_correlate, Polled};
use crate::service::request_id::RmwRequestId;

verus! {

/// What a caller waiting for the result under `req_id` makes of one look at
/// the result service's reply channel: the reply with that id gives the
/// goal's end status and the result.
pub open spec fn spec_receive_result<R>(
    req_id: RmwRequestId,
    incoming: Option<(RmwRequestId, GetResultResponse<R>)>,
) -> Polled<(GoalStatusEnum, R)> {
    match spec_correlate(req_id, incoming) {
        Polled::Ready(response) => Polled::Ready((response.status, response.result)),
        Polled::Pending => Polled::Pending,
        Polled::Skipped => Polled::Skipped,
    }
}

/// What a caller that follows goal `goal_id` makes of one look at the feedback
/// topic: a message about that goal gives its feedback, one about another goal
/// is dropped.
pub open spec fn spec_receive_feedback<F>(goal_id: GoalId, incoming: Option<FeedbackMessage<F>>) -> Polled<
    F,
> {
    match incoming {
        None => Polled::Pending,
        Some(message) => if message.goal_id == goal_id {
            Polled::Ready(message.feedback)
        } else {
            Polled::Skipped
        },
    }
}

/// An action client.
pub struct ActionClient<A: ActionTypes> {
    action: PhantomData<A>,
}

impl<A: ActionTypes> ActionClient<A> {
    /// A client of the action `A`.
    pub fn new() -> Self {
        ActionClient { action: PhantomData }
    }

    /// The request that submits `goal` under the id `goal_id`.
    ///
    /// The id is to be a fresh one. It stays the client's name for the goal:
    /// feedback, statuses and the result are found by it.
    pub fn send_goal(&self, goal_id: GoalId, goal: A::GoalType) -> (request: SendGoalRequest<
        A::GoalType,
    >)
        ensures
            request == (SendGoalRequest { goal_id, goal }),
    {
        SendGoalRequest { goal_id, goal }
    }

    /// What a reply just taken from the goal service means to the caller that
    /// waits for the answer to the goal request `req_id`. Only the reply with
    /// that id is the answer; any other is dropped.
    pub fn receive_goal_response(
        &self,
        req_id: RmwRequestId,
        incoming: Option<(RmwRequestId, SendGoalResponse)>,
    ) -> (polled: Polled<SendGoalResponse>)
        ensures
            polled == spec_correlate(req_id, incoming),
    {
        correlate(req_id, incoming)
    }

    /// The cancel request for the given goal id and time stamp.
    fn cancel_goal_raw(&self, goal_id: GoalId, timestamp: Time) -> (request: CancelGoalRequest)
        ensures
            request == (CancelGoalRequest { goal_info: GoalInfo { goal_id, stamp: timestamp } }),
    {
        let goal_info = GoalInfo { goal_id, stamp: timestamp };
        CancelGoalRequest { goal_info }
    }

    /// The request to cancel the goal with the given id, whenever it was
    /// accepted.
    pub fn cancel_goal(&self, goal_id: GoalId) -> (request: CancelGoalRequest)
        ensures
            request == (CancelGoalRequest {
                goal_info: GoalInfo { goal_id, stamp: Time::spec_zero() },
            }),
    {
        self.cancel_goal_raw(goal_id, Time::zero())
    }

    /// The request to cancel all goals accepted before the given time.
    pub fn cancel_all_goals_before(&self, timestamp: Time) -> (request: CancelGoalRequest)
        ensures
            request == (CancelGoalRequest {
                goal_info: GoalInfo { goal_id: UUID::spec_zero(), stamp: timestamp },
            }),
    {
        self.cancel_goal_raw(UUID::zero(), timestamp)
    }

    /// The request to cancel all goals.
    pub fn cancel_all_goals(&self) -> (request: CancelGoalRequest)
        ensures
            request == (CancelGoalRequest {
                goal_info: GoalInfo { goal_id: UUID::spec_zero(), stamp: Time::spec_zero() },
            }),
    {
        self.cancel_goal_raw(UUID::zero(), Time::zero())
    }

    /// The request to cancel the goal with the given id together with all
    /// goals accepted before the given time.
    pub fn async_cancel_goal(&self, goal_id: GoalId, timestamp: Time) -> (request: CancelGoalRequest)
        ensures
            request == (CancelGoalRequest { goal_info: GoalInfo { goal_id, stamp: timestamp } }),
    {
        self.cancel_goal_raw(goal_id, timestamp)
    }

    /// What a reply just taken from the cancel service means to the caller
    /// that waits for the answer to the cancel request `cancel_request_id`.
    pub fn receive_cancel_response(
        &self,
        cancel_request_id: RmwRequestId,
        incoming: Option<(RmwRequestId, CancelGoalResponse)>,
    ) -> (polled: Polled<CancelGoalResponse>)
        ensures
            polled == spec_correlate(cancel_request_id, incoming),
    {
        correlate(cancel_request_id, incoming)
    }

    /// The request for the result of the goal with the given id.
    pub fn request_result(&self, goal_id: GoalId) -> (request: GetResultRequest)
        ensures
            request == (GetResultRequest { goal_id }),
    {
        GetResultRequest { goal_id }
    }

    /// What a reply just taken from the result service means to the caller
    /// that waits for the answer to the result request `result_request_id`:
    /// the reply with that id gives the status in which the goal ended, and
    /// the result.
    pub fn receive_result(
        &self,
        result_request_id: RmwRequestId,
        incoming: Option<(RmwRequestId, GetResultResponse<A::ResultType>)>,
    ) -> (polled: Polled<(GoalStatusEnum, A::ResultType)>)
        ensures
            polled == spec_receive_result(result_request_id, incoming),
    {
        match correlate(result_request_id, incoming) {
            Polled::Ready(response) => Polled::Ready((response.status, response.result)),
            Polled::Pending => Polled::Pending,
            Polled::Skipped => Polled::Skipped,
        }
    }

    /// What a message just taken from the feedback topic means to the caller
    /// that follows the goal `goal_id`. Feedback on other goals is dropped.
    pub fn receive_feedback(
        &self,
        goal_id: GoalId,
        incoming: Option<FeedbackMessage<A::FeedbackType>>,
    ) -> (polled: Polled<A::FeedbackType>)
        ensures
            polled == spec_receive_feedback(goal_id, incoming),
    {
        match incoming {
            None => Polled::Pending,
            Some(message) => if message.goal_id == goal_id {
                Polled::Ready(message.feedback)
            } else {
                Polled::Skipped
            },
        }
    }

    /// What the stream of feedback on the goal `goal_id` yields for one item of
    /// the feedback topic: the feedback where the message is about that goal,
    /// nothing where it is about another, and a read error as it is.
    pub fn feedback_stream(
        &self,
        goal_id: GoalId,
        item: Result<FeedbackMessage<A::FeedbackType>, ReadError>,
    ) -> (yielded: Option<Result<A::FeedbackType, ReadError>>)
        ensures
            yielded == match item {
                Err(e) => Some(Err(e)),
                Ok(message) => if message.goal_id == goal_id {
                    Some(Ok(message.feedback))
                } else {
                    None
                },
            },
    {
        match item {
            Err(e) => Some(Err(e)),
            Ok(message) => if message.goal_id == goal_id {
                Some(Ok(message.feedback))
            } else {
                None
            },
        }
    }

    /// What the stream of statuses of the goal `goal_id` yields for one item of
    /// the status topic: the first entry of the broadcast that is about that
    /// goal, nothing where no entry is, and a read error as it is.
    pub fn status_stream(&self, goal_id: GoalId, item: Result<GoalStatusArray, ReadError>) -> (yielded:
        Option<Result<GoalStatus, ReadError>>)
        ensures
            yielded == match item {
                Err(e) => Some(Err::<GoalStatus, ReadError>(e)),
                Ok(statuses) => match first_status_of(statuses@, goal_id) {
                    Some(status) => Some(Ok(status)),
                    None => None,
                },
            },
    {
        match item {
            Err(e) => Some(Err(e)),
            Ok(statuses) => match statuses.find(goal_id) {
                Some(status) => Some(Ok(status)),
                None => None,
            },
        }
    }
}

} // verus!
