//! Types and rules of ROS 2 actions.

use rustdds::dds::{ReadError, WriteError};
use rustdds::QosPolicies;
use std::marker::PhantomData;
use vstd::prelude::*;
use vstd::std_specs::convert::FromSpecImpl;
use vstd::string::{to_string_from_display_ensures, StringExecFns};

use crate::action::goal::{GoalId, GoalStatusEnum};
use crate::interfaces::builtin_interfaces::Time;
use crate::message::Message;
use crate::service::request_id::RmwRequestId;

pub mod client;
pub mod goal;
pub mod laws;
pub mod registry;
pub mod server;

verus! {

/// The three message types of an action, and their names.
pub trait ActionTypes {
    /// What a client sends to set a goal.
    type GoalType: Message + Clone;

    /// What the server reports when the goal has ended.
    type ResultType: Message + Clone;

    /// What the server reports while it works on the goal.
    type FeedbackType: Message;

    /// The type name of the goal message.
    fn goal_type_name(&self) -> &str;

    /// The type name of the result message.
    fn result_type_name(&self) -> &str;

    /// The type name of the feedback message.
    fn feedback_type_name(&self) -> &str;
}

/// An [`ActionTypes`] put together from three message types and their names.
pub struct Action<G, R, F> {
    g: PhantomData<G>,
    r: PhantomData<R>,
    f: PhantomData<F>,
    goal_typename: String,
    result_typename: String,
    feedback_typename: String,
}

impl<G, R, F> Action<G, R, F> where G: Message + Clone, R: Message + Clone, F: Message {
    /// The goal type name as characters.
    pub closed spec fn spec_goal_type_name(&self) -> Seq<char> {
        self.goal_typename@
    }

    /// The result type name as characters.
    pub closed spec fn spec_result_type_name(&self) -> Seq<char> {
        self.result_typename@
    }

    /// The feedback type name as characters.
    pub closed spec fn spec_feedback_type_name(&self) -> Seq<char> {
        self.feedback_typename@
    }

    /// An action descriptor with the given type names.
    pub fn new(goal_typename: String, result_typename: String, feedback_typename: String) -> (action:
        Self)
        ensures
            action.spec_goal_type_name() == goal_typename@,
            action.spec_result_type_name() == result_typename@,
            action.spec_feedback_type_name() == feedback_typename@,
    {
        Self {
            goal_typename,
            result_typename,
            feedback_typename,
            g: PhantomData,
            r: PhantomData,
            f: PhantomData,
        }
    }
}

impl<G, R, F> ActionTypes for Action<G, R, F> where G: Message + Clone, R: Message + Clone, F: Message {
    type GoalType = G;

    type ResultType = R;

    type FeedbackType = F;

    fn goal_type_name(&self) -> (name: &str)
        ensures
            name@ == self.spec_goal_type_name(),
    {
        self.goal_typename.as_str()
    }

    fn result_type_name(&self) -> (name: &str)
        ensures
            name@ == self.spec_result_type_name(),
    {
        self.result_typename.as_str()
    }

    fn feedback_type_name(&self) -> (name: &str)
        ensures
            name@ == self.spec_feedback_type_name(),
    {
        self.feedback_typename.as_str()
    }
}

/// The quality-of-service settings of an action client, one per endpoint.
#[derive(Debug)]
pub struct ActionClientQosPolicies {
    /// For the goal service.
    pub goal_service: QosPolicies,
    /// For the result service.
    pub result_service: QosPolicies,
    /// For the cancel service.
    pub cancel_service: QosPolicies,
    /// For the subscription to feedback.
    pub feedback_subscription: QosPolicies,
    /// For the subscription to goal statuses.
    pub status_subscription: QosPolicies,
}

impl Clone for ActionClientQosPolicies {
    fn clone(&self) -> (copy: Self)
        ensures
            copy == *self,
    {
        ActionClientQosPolicies {
            goal_service: self.goal_service.clone(),
            result_service: self.result_service.clone(),
            cancel_service: self.cancel_service.clone(),
            feedback_subscription: self.feedback_subscription.clone(),
            status_subscription: self.status_subscription.clone(),
        }
    }
}

/// The quality-of-service settings of an action server, one per endpoint.
#[derive(Debug)]
pub struct ActionServerQosPolicies {
    /// For the goal service.
    pub goal_service: QosPolicies,
    /// For the result service.
    pub result_service: QosPolicies,
    /// For the cancel service.
    pub cancel_service: QosPolicies,
    /// For the publisher of feedback.
    pub feedback_publisher: QosPolicies,
    /// For the publisher of goal statuses.
    pub status_publisher: QosPolicies,
}

impl Clone for ActionServerQosPolicies {
    fn clone(&self) -> (copy: Self)
        ensures
            copy == *self,
    {
        ActionServerQosPolicies {
            goal_service: self.goal_service.clone(),
            result_service: self.result_service.clone(),
            cancel_service: self.cancel_service.clone(),
            feedback_publisher: self.feedback_publisher.clone(),
            status_publisher: self.status_publisher.clone(),
        }
    }
}

/// A request of the goal service: a new goal and the id that the client gave it.
#[derive(Clone, Debug)]
pub struct SendGoalRequest<Goal> {
    /// The goal's identifier.
    pub goal_id: GoalId,
    /// The goal.
    pub goal: Goal,
}

impl<G: Message> Message for SendGoalRequest<G> {

}

/// A response of the goal service.
#[derive(Clone, Copy, Debug, PartialEq, Eq, Structural)]
pub struct SendGoalResponse {
    /// Whether the server accepted the goal.
    pub accepted: bool,
    /// When the server decided.
    pub stamp: Time,
}

impl Message for SendGoalResponse {

}

/// A request of the result service.
#[derive(Clone, Copy, Debug, PartialEq, Eq, Structural)]
pub struct GetResultRequest {
    /// The goal whose result is asked for.
    pub goal_id: GoalId,
}

impl Message for GetResultRequest {

}

/// A response of the result service.
#[derive(Clone, Debug)]
pub struct GetResultResponse<Res> {
    /// The status in which the goal ended.
    pub status: GoalStatusEnum,
    /// The result.
    pub result: Res,
}

impl<R: Message> Message for GetResultResponse<R> {

}

/// A message on the feedback topic.
#[derive(Clone, Debug)]
pub struct FeedbackMessage<Feedback> {
    /// The goal that the feedback is about.
    pub goal_id: GoalId,
    /// The feedback.
    pub feedback: Feedback,
}

impl<F: Message> Message for FeedbackMessage<F> {

}

/// What all handles to a goal have in common.
pub trait GoalHandle {
    /// The goal's identifier.
    spec fn spec_goal_id(&self) -> GoalId;

    /// The goal's identifier.
    fn goal_id(&self) -> (id: GoalId)
        ensures
            id == self.spec_goal_id(),
    ;
}

/// A goal id tagged with the goal's type.
#[derive(Debug, PartialEq, PartialOrd)]
pub(crate) struct InnerGoalHandle<Goal> {
    pub(crate) goal_id: GoalId,
    pub(crate) phantom: PhantomData<Goal>,
}

impl<Goal> Clone for InnerGoalHandle<Goal> {
    fn clone(&self) -> (copy: Self)
        ensures
            copy == *self,
    {
        InnerGoalHandle { goal_id: self.goal_id, phantom: PhantomData }
    }
}

impl<Goal> Copy for InnerGoalHandle<Goal> {

}

/// A handle to a goal that has arrived and is neither accepted nor rejected.
#[derive(Debug, PartialEq, PartialOrd)]
pub struct NewGoalHandle<Goal> {
    pub(crate) inner: InnerGoalHandle<Goal>,
    pub(crate) req_id: RmwRequestId,
}

impl<Goal> Clone for NewGoalHandle<Goal> {
    fn clone(&self) -> (copy: Self)
        ensures
            copy == *self,
    {
        NewGoalHandle { inner: self.inner, req_id: self.req_id }
    }
}

impl<Goal> Copy for NewGoalHandle<Goal> {

}

impl<Goal> NewGoalHandle<Goal> {
    /// The id of the request that brought the goal. The answer to the client
    /// goes out under it.
    pub closed spec fn spec_req_id(&self) -> RmwRequestId {
        self.req_id
    }
}

impl<Goal> GoalHandle for NewGoalHandle<Goal> {
    closed spec fn spec_goal_id(&self) -> GoalId {
        self.inner.goal_id
    }

    fn goal_id(&self) -> GoalId {
        self.inner.goal_id
    }
}

/// A handle to an accepted goal.
pub struct AcceptedGoalHandle<Goal> {
    pub(crate) inner: InnerGoalHandle<Goal>,
}

impl<Goal> Clone for AcceptedGoalHandle<Goal> {
    fn clone(&self) -> (copy: Self)
        ensures
            copy == *self,
    {
        AcceptedGoalHandle { inner: self.inner }
    }
}

impl<Goal> Copy for AcceptedGoalHandle<Goal> {

}

impl<Goal> GoalHandle for AcceptedGoalHandle<Goal> {
    closed spec fn spec_goal_id(&self) -> GoalId {
        self.inner.goal_id
    }

    fn goal_id(&self) -> GoalId {
        self.inner.goal_id
    }
}

/// A handle to an executing goal.
pub struct ExecutingGoalHandle<Goal> {
    pub(crate) inner: InnerGoalHandle<Goal>,
}

impl<Goal> Clone for ExecutingGoalHandle<Goal> {
    fn clone(&self) -> (copy: Self)
        ensures
            copy == *self,
    {
        ExecutingGoalHandle { inner: self.inner }
    }
}

impl<Goal> Copy for ExecutingGoalHandle<Goal> {

}

impl<Goal> GoalHandle for ExecutingGoalHandle<Goal> {
    closed spec fn spec_goal_id(&self) -> GoalId {
        self.inner.goal_id
    }

    fn goal_id(&self) -> GoalId {
        self.inner.goal_id
    }
}

/// What a client's cancel request comes to on the server: the request's id and
/// the goals that it asks to cancel.
pub struct CancelHandle {
    pub(crate) req_id: RmwRequestId,
    pub(crate) goals: Vec<GoalId>,
}

impl CancelHandle {
    /// The id of the cancel request. The answer goes out under it.
    pub closed spec fn spec_req_id(&self) -> RmwRequestId {
        self.req_id
    }

    /// The goals that the request asks to cancel.
    pub closed spec fn spec_goals(&self) -> Seq<GoalId> {
        self.goals@
    }

    /// The goals that the request asks to cancel.
    pub fn goals(&self) -> (goals: Vec<GoalId>)
        ensures
            goals@ == self.spec_goals(),
    {
        let mut goals: Vec<GoalId> = Vec::new();
        let mut i: usize = 0;
        while i < self.goals.len()
            invariant
                i <= self.goals.len(),
                goals@ == self.goals@.take(i as int),
            decreases self.goals.len() - i,
        {
            goals.push(self.goals[i]);
            assert(self.goals@.take(i + 1) == self.goals@.take(i as int).push(self.goals@[i as int]));
            i += 1;
        }
        assert(self.goals@.take(self.goals@.len() as int) == self.goals@);
        goals
    }

    /// Whether the request asks to cancel the goal with the given id.
    pub fn contains_goal(&self, goal_id: &GoalId) -> (found: bool)
        ensures
            found == self.spec_goals().contains(*goal_id),
    {
        let mut i: usize = 0;
        while i < self.goals.len()
            invariant
                i <= self.goals.len(),
                forall|j: int| 0 <= j < i ==> self.goals@[j] != *goal_id,
            decreases self.goals.len() - i,
        {
            if self.goals[i] == *goal_id {
                return true;
            }
            i += 1;
        }
        false
    }
}

/// How a goal ended.
#[derive(Debug, Clone, Copy, PartialEq, Eq, Structural)]
pub enum GoalEndStatus {
    /// The goal succeeded.
    Succeeded,
    /// The server aborted the goal before it could complete.
    Aborted,
    /// The goal was canceled before it could complete.
    Canceled,
}

impl GoalEndStatus {
    /// The goal status that the end status stands for.
    pub open spec fn spec_status(self) -> GoalStatusEnum {
        match self {
            GoalEndStatus::Succeeded => GoalStatusEnum::Succeeded,
            GoalEndStatus::Aborted => GoalStatusEnum::Aborted,
            GoalEndStatus::Canceled => GoalStatusEnum::Canceled,
        }
    }

    /// The goal status that the end status stands for. It is always terminal.
    #[verifier::when_used_as_spec(spec_status)]
    pub fn status(self) -> (status: GoalStatusEnum)
        ensures
            status == self.spec_status(),
            status.spec_is_terminal(),
    {
        match self {
            GoalEndStatus::Succeeded => GoalStatusEnum::Succeeded,
            GoalEndStatus::Aborted => GoalStatusEnum::Aborted,
            GoalEndStatus::Canceled => GoalStatusEnum::Canceled,
        }
    }
}

/// What can go wrong when working with an action.
#[derive(Debug)]
#[verifier::reject_recursive_types(T)]
pub enum GoalError<T> {
    /// The goal is not known.
    NoSuchGoal,
    /// The goal is not in a status that allows the operation.
    WrongGoalState,
    /// A read from DDS failed.
    DDSReadError(ReadError),
    /// A write to DDS failed.
    DDSWriteError(WriteError<T>),
}

impl<T> GoalError<T> {
    /// The error in words.
    ///
    /// For a DDS error the words are a fixed prefix followed by what the
    /// error's own `to_string` gives.
    pub fn message(&self) -> (text: String)
        ensures
            self is NoSuchGoal ==> text@ == "No such goal"@,
            self is WrongGoalState ==> text@ == "Wrong goal state"@,
            self matches GoalError::DDSReadError(e) ==> exists|detail: String|
                #[trigger] to_string_from_display_ensures::<ReadError>(&e, detail) && text@
                    == "DDS read error: "@ + detail@,
            self matches GoalError::DDSWriteError(e) ==> exists|detail: String|
                #[trigger] to_string_from_display_ensures::<WriteError<T>>(&e, detail) && text@
                    == "DDS write error: "@ + detail@,
    {
        match self {
            GoalError::NoSuchGoal => String::from_str("No such goal"),
            GoalError::WrongGoalState => String::from_str("Wrong goal state"),
            GoalError::DDSReadError(e) => {
                let detail = e.to_string();
                String::from_str("DDS read error: ").concat(detail.as_str())
            },
            GoalError::DDSWriteError(e) => {
                let detail = e.to_string();
                String::from_str("DDS write error: ").concat(detail.as_str())
            },
        }
    }
}

impl<T> From<ReadError> for GoalError<T> {
    fn from(e: ReadError) -> (err: Self) {
        GoalError::DDSReadError(e)
    }
}

impl<T> FromSpecImpl<ReadError> for GoalError<T> {
    open spec fn obeys_from_spec() -> bool {
        true
    }

    open spec fn from_spec(e: ReadError) -> Self {
        GoalError::DDSReadError(e)
    }
}

impl<T> From<WriteError<T>> for GoalError<T> {
    fn from(e: WriteError<T>) -> (err: Self) {
        GoalError::DDSWriteError(e)
    }
}

impl<T> FromSpecImpl<WriteError<T>> for GoalError<T> {
    open spec fn obeys_from_spec() -> bool {
        true
    }

    open spec fn from_spec(e: WriteError<T>) -> Self {
        GoalError::DDSWriteError(e)
    }
}

} // verus!
