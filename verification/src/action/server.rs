//! The server's registry of goals and the life cycle it enforces.
//!
//! The server here decides; it does not talk. Each method takes what has
//! arrived (a request and its id, the time) and hands back what has to go out
//! (the status broadcast, a reply), in the order in which it has to go out.

use std::collections::BTreeMap;
use vstd::prelude::*;
use vstd::std_specs::cmp::OrdSpec;
use vstd::std_specs::iter::IteratorSpec;

use crate::action::goal::{
    CancelGoalRequest, CancelGoalResponse, CancelGoalResponseEnum, GoalId, GoalInfo, GoalStatus,
    GoalStatusArray, GoalStatusEnum,
};
use crate::action::registry::{
    canceling_infos, goals_after, is_cancel_candidate, is_cancel_list_of, is_status_list_of,
    is_well_formed, result_requests_after, result_requests_after_result, spec_cancel_selects,
    status_entry, takes_effect, with_canceling, with_status, AsyncGoal, Registry, ServerCall,
};
use crate::action::{
    AcceptedGoalHandle, ActionTypes, CancelHandle, ExecutingGoalHandle, FeedbackMessage,
    GetResultRequest, GetResultResponse, GoalEndStatus, GoalError, GoalHandle, InnerGoalHandle,
    NewGoalHandle, SendGoalRequest, SendGoalResponse,
};
use crate::interfaces::builtin_interfaces::Time;
use crate::interfaces::unique_identifier_msgs::UUID;
use crate::service::request_id::RmwRequestId;
use crate::service::server::Reply;

verus! {

/// Whether `e` is the error with which a call that names the goal fails: the
/// goal is not known, or it is known and its status does not admit the call.
pub open spec fn is_refusal<G, T>(e: GoalError<T>, goals: Registry<G>, goal_id: GoalId) -> bool {
    if goals.contains_key(goal_id@) {
        e is WrongGoalState
    } else {
        e is NoSuchGoal
    }
}

/// Whether a cancel request picks out the goal `goal_id` that was accepted at
/// `accepted_time`, if it was accepted at all.
pub fn cancel_selects(request: &GoalInfo, goal_id: GoalId, accepted_time: Option<Time>) -> (selected:
    bool)
    ensures
        selected == spec_cancel_selects(*request, goal_id, accepted_time),
{
    let accepted_before = match accepted_time {
        Some(at) => at.before(request.stamp),
        None => false,
    };
    if request.goal_id.is_zero() {
        request.stamp.is_zero() || accepted_before
    } else if request.stamp.is_zero() {
        request.goal_id == goal_id
    } else {
        request.goal_id == goal_id || accepted_before
    }
}

/// The goals of an action server and the result requests that wait for them.
pub struct AsyncActionServer<A: ActionTypes> {
    goals: BTreeMap<u128, AsyncGoal<A::GoalType>>,
    result_requests: BTreeMap<u128, RmwRequestId>,
}

impl<A: ActionTypes> AsyncActionServer<A> {
    /// The registry of goals.
    pub closed spec fn goals(&self) -> Registry<A::GoalType> {
        self.goals@
    }

    /// The result requests that have arrived and wait for their goal to end,
    /// by the number of the goal's id.
    pub closed spec fn result_requests(&self) -> Map<u128, RmwRequestId> {
        self.result_requests@
    }

    /// A server that knows no goal and holds no result request.
    pub fn new() -> (server: Self)
        ensures
            server.goals() == Map::<u128, AsyncGoal<A::GoalType>>::empty(),
            server.result_requests() == Map::<u128, RmwRequestId>::empty(),
            is_well_formed(server.goals()),
    {
        AsyncActionServer { goals: BTreeMap::new(), result_requests: BTreeMap::new() }
    }

    /// The status of a goal, if the goal is known.
    fn status_of(&self, goal_id: GoalId) -> (status: Option<GoalStatusEnum>)
        ensures
            status == if self.goals().contains_key(goal_id@) {
                Some(self.goals()[goal_id@].status)
            } else {
                None
            },
    {
        match self.goals.get(&goal_id.value) {
            Some(goal) => Some(goal.status),
            None => None,
        }
    }

    /// Gives a known goal another status.
    fn set_status(&mut self, goal_id: GoalId, status: GoalStatusEnum)
        requires
            old(self).goals().contains_key(goal_id@),
        ensures
            final(self).goals() == old(self).goals().insert(
                goal_id@,
                with_status(old(self).goals()[goal_id@], status),
            ),
            final(self).result_requests() == old(self).result_requests(),
    {
        match self.goals.remove(&goal_id.value) {
            Some(goal) => {
                self.goals.insert(
                    goal_id.value,
                    AsyncGoal { status, accepted_time: goal.accepted_time, goal: goal.goal },
                );
            },
            None => {},
        }
        assert(self.goals@ =~= old(self).goals@.insert(
            goal_id@,
            with_status(old(self).goals@[goal_id@], status),
        ));
    }

    /// The goal behind a handle, if the registry holds it.
    pub fn get_new_goal(&self, handle: NewGoalHandle<A::GoalType>) -> (goal: Option<&A::GoalType>)
        ensures
            goal is Some <==> self.goals().contains_key(handle.spec_goal_id()@),
            goal matches Some(g) ==> *g == self.goals()[handle.spec_goal_id()@].goal,
    {
        match self.goals.get(&handle.inner.goal_id.value) {
            Some(goal) => Some(&goal.goal),
            None => None,
        }
    }

    /// Takes in a goal request that has arrived under `req_id`.
    ///
    /// A goal whose id the registry does not hold yet is entered with status
    /// `Unknown` and no acceptance time, and a handle to it is returned. The
    /// server should then accept or reject it. A request with an id that the
    /// registry holds already is dropped: nothing changes, and no handle is
    /// returned.
    pub fn receive_new_goal(
        &mut self,
        req_id: RmwRequestId,
        goal_request: SendGoalRequest<A::GoalType>,
    ) -> (handle: Option<NewGoalHandle<A::GoalType>>)
        ensures
            final(self).goals() == goals_after(
                old(self).goals(),
                ServerCall::ReceiveNewGoal {
                    goal_id: goal_request.goal_id,
                    goal: goal_request.goal,
                },
            ),
            final(self).result_requests() == old(self).result_requests(),
            is_well_formed(old(self).goals()) ==> is_well_formed(final(self).goals()),
            handle is Some <==> !old(self).goals().contains_key(goal_request.goal_id@),
            handle matches Some(h) ==> h.spec_goal_id() == goal_request.goal_id && h.spec_req_id()
                == req_id,
    {
        let goal_id = goal_request.goal_id;
        if self.goals.contains_key(&goal_id.value) {
            None
        } else {
            self.goals.insert(
                goal_id.value,
                AsyncGoal {
                    status: GoalStatusEnum::Unknown,
                    accepted_time: None,
                    goal: goal_request.goal,
                },
            );
            Some(
                NewGoalHandle {
                    inner: InnerGoalHandle { goal_id, phantom: std::marker::PhantomData },
                    req_id,
                },
            )
        }
    }

    /// Accepts a new goal at time `now`.
    ///
    /// The goal must be in status `Unknown`. It then becomes `Accepted` with
    /// acceptance time `now`. To be sent, in this order: the status broadcast,
    /// then the reply to the goal request, which says that the goal was
    /// accepted at `now`.
    ///
    /// Once a goal is accepted the server owes the client a result: see
    /// [`Self::send_result_response`].
    pub fn accept_goal(&mut self, handle: NewGoalHandle<A::GoalType>, now: Time) -> (accepted: Result<
        (AcceptedGoalHandle<A::GoalType>, GoalStatusArray, Reply<SendGoalResponse>),
        GoalError<()>,
    >)
        ensures
            final(self).goals() == goals_after(
                old(self).goals(),
                ServerCall::AcceptGoal { goal_id: handle.spec_goal_id(), now },
            ),
            final(self).result_requests() == old(self).result_requests(),
            is_well_formed(old(self).goals()) ==> is_well_formed(final(self).goals()),
            accepted is Ok <==> takes_effect(
                old(self).goals(),
                ServerCall::AcceptGoal { goal_id: handle.spec_goal_id(), now },
            ),
            accepted matches Ok((accepted_handle, statuses, reply)) ==> {
                &&& accepted_handle.spec_goal_id() == handle.spec_goal_id()
                &&& is_status_list_of(statuses@, final(self).goals())
                &&& reply == (Reply {
                    req_id: handle.spec_req_id(),
                    response: SendGoalResponse { accepted: true, stamp: now },
                })
            },
            accepted matches Err(e) ==> is_refusal(e, old(self).goals(), handle.spec_goal_id()),
    {
        let goal_id = handle.inner.goal_id;
        match self.status_of(goal_id) {
            None => Err(GoalError::NoSuchGoal),
            Some(GoalStatusEnum::Unknown) => {
                match self.goals.remove(&goal_id.value) {
                    Some(goal) => {
                        self.goals.insert(
                            goal_id.value,
                            AsyncGoal {
                                status: GoalStatusEnum::Accepted,
                                accepted_time: Some(now),
                                goal: goal.goal,
                            },
                        );
                    },
                    None => {},
                }
                assert(self.goals@ =~= goals_after(
                    old(self).goals@,
                    ServerCall::AcceptGoal { goal_id, now },
                ));
                let statuses = self.publish_statuses();
                let reply = Reply {
                    req_id: handle.req_id,
                    response: SendGoalResponse { accepted: true, stamp: now },
                };
                Ok((AcceptedGoalHandle { inner: handle.inner }, statuses, reply))
            },
            Some(_) => Err(GoalError::WrongGoalState),
        }
    }

    /// Rejects a new goal at time `now`.
    ///
    /// The goal must be in status `Unknown`. The registry does not change, and
    /// no status is broadcast. To be sent: the reply to the goal request, which
    /// says that the goal was not accepted.
    pub fn reject_goal(&mut self, handle: NewGoalHandle<A::GoalType>, now: Time) -> (rejected: Result<
        Reply<SendGoalResponse>,
        GoalError<()>,
    >)
        ensures
            final(self).goals() == old(self).goals(),
            final(self).goals() == goals_after(
                old(self).goals(),
                ServerCall::RejectGoal { goal_id: handle.spec_goal_id() },
            ),
            final(self).result_requests() == old(self).result_requests(),
            is_well_formed(old(self).goals()) ==> is_well_formed(final(self).goals()),
            rejected is Ok <==> takes_effect(
                old(self).goals(),
                ServerCall::RejectGoal { goal_id: handle.spec_goal_id() },
            ),
            rejected matches Ok(reply) ==> reply == (Reply {
                req_id: handle.spec_req_id(),
                response: SendGoalResponse { accepted: false, stamp: now },
            }),
            rejected matches Err(e) ==> is_refusal(e, old(self).goals(), handle.spec_goal_id()),
    {
        match self.status_of(handle.inner.goal_id) {
            None => Err(GoalError::NoSuchGoal),
            Some(GoalStatusEnum::Unknown) => Ok(
                Reply {
                    req_id: handle.req_id,
                    response: SendGoalResponse { accepted: false, stamp: now },
                },
            ),
            Some(_) => Err(GoalError::WrongGoalState),
        }
    }

    /// Starts the execution of an accepted goal.
    ///
    /// The goal must be in status `Accepted`. It then becomes `Executing`. To
    /// be sent: the status broadcast.
    pub fn start_executing_goal(&mut self, handle: AcceptedGoalHandle<A::GoalType>) -> (started:
        Result<(ExecutingGoalHandle<A::GoalType>, GoalStatusArray), GoalError<()>>)
        ensures
            final(self).goals() == goals_after(
                old(self).goals(),
                ServerCall::StartExecutingGoal { goal_id: handle.spec_goal_id() },
            ),
            final(self).result_requests() == old(self).result_requests(),
            is_well_formed(old(self).goals()) ==> is_well_formed(final(self).goals()),
            started is Ok <==> takes_effect(
                old(self).goals(),
                ServerCall::StartExecutingGoal { goal_id: handle.spec_goal_id() },
            ),
            started matches Ok((executing_handle, statuses)) ==> {
                &&& executing_handle.spec_goal_id() == handle.spec_goal_id()
                &&& is_status_list_of(statuses@, final(self).goals())
            },
            started matches Err(e) ==> is_refusal(e, old(self).goals(), handle.spec_goal_id()),
    {
        let goal_id = handle.inner.goal_id;
        match self.status_of(goal_id) {
            None => Err(GoalError::NoSuchGoal),
            Some(GoalStatusEnum::Accepted) => {
                self.set_status(goal_id, GoalStatusEnum::Executing);
                let statuses = self.publish_statuses();
                Ok((ExecutingGoalHandle { inner: handle.inner }, statuses))
            },
            Some(_) => Err(GoalError::WrongGoalState),
        }
    }

    /// Reports progress on an executing goal.
    ///
    /// The goal must be in status `Executing`. The registry does not change.
    /// To be sent: the feedback message, which carries the goal's id.
    pub fn publish_feedback(
        &mut self,
        handle: ExecutingGoalHandle<A::GoalType>,
        feedback: A::FeedbackType,
    ) -> (published: Result<
        FeedbackMessage<A::FeedbackType>,
        GoalError<FeedbackMessage<A::FeedbackType>>,
    >)
        ensures
            final(self).goals() == old(self).goals(),
            final(self).goals() == goals_after(
                old(self).goals(),
                ServerCall::PublishFeedback { goal_id: handle.spec_goal_id() },
            ),
            final(self).result_requests() == old(self).result_requests(),
            is_well_formed(old(self).goals()) ==> is_well_formed(final(self).goals()),
            published is Ok <==> takes_effect(
                old(self).goals(),
                ServerCall::PublishFeedback { goal_id: handle.spec_goal_id() },
            ),
            published matches Ok(message) ==> message == (FeedbackMessage {
                goal_id: handle.spec_goal_id(),
                feedback,
            }),
            published matches Err(e) ==> is_refusal(e, old(self).goals(), handle.spec_goal_id()),
    {
        match self.status_of(handle.inner.goal_id) {
            None => Err(GoalError::NoSuchGoal),
            Some(GoalStatusEnum::Executing) => Ok(
                FeedbackMessage { goal_id: handle.inner.goal_id, feedback },
            ),
            Some(_) => Err(GoalError::WrongGoalState),
        }
    }

    /// The result request that was put aside for the goal, if there is one.
    ///
    /// This is the first step of sending a result: where a request is found,
    /// [`Self::send_result_response`] can answer it at once; where none is, the
    /// server has to wait for one, handing each result request that arrives to
    /// [`Self::receive_result_request`].
    pub fn waiting_result_request(&self, handle: ExecutingGoalHandle<A::GoalType>) -> (req_id:
        Option<RmwRequestId>)
        ensures
            req_id == if self.result_requests().contains_key(handle.spec_goal_id()@) {
                Some(self.result_requests()[handle.spec_goal_id()@])
            } else {
                None
            },
    {
        match self.result_requests.get(&handle.inner.goal_id.value) {
            Some(req_id) => Some(*req_id),
            None => None,
        }
    }

    /// Takes in a result request that has arrived under `req_id` while the
    /// server waits for the result request of the goal behind `handle`.
    ///
    /// If it asks for that goal's result, the wait is over: its id is
    /// returned, and nothing is put aside. If it asks for another goal's
    /// result, it is put aside under that goal's id, where
    /// [`Self::waiting_result_request`] will find it, and the wait goes on.
    pub fn receive_result_request(
        &mut self,
        handle: ExecutingGoalHandle<A::GoalType>,
        req_id: RmwRequestId,
        request: GetResultRequest,
    ) -> (awaited: Option<RmwRequestId>)
        ensures
            final(self).goals() == old(self).goals(),
            is_well_formed(old(self).goals()) ==> is_well_formed(final(self).goals()),
            final(self).result_requests() == result_requests_after(
                old(self).result_requests(),
                handle.spec_goal_id(),
                req_id,
                request.goal_id,
            ),
            awaited == if request.goal_id == handle.spec_goal_id() {
                Some(req_id)
            } else {
                None
            },
    {
        if request.goal_id == handle.inner.goal_id {
            Some(req_id)
        } else {
            self.result_requests.insert(request.goal_id.value, req_id);
            None
        }
    }

    /// Ends a goal with `result_status` and answers the result request
    /// `req_id` with the result.
    ///
    /// The goal must be in status `Accepted`, `Executing` or `Canceling`. It
    /// then has the status that `result_status` stands for. To be sent, in this
    /// order: the status broadcast, then the reply to the result request, which
    /// carries that status and the result.
    ///
    /// `req_id` is the id of the goal's result request, as
    /// [`Self::waiting_result_request`] or [`Self::receive_result_request`]
    /// returned it. With the result sent that request is answered: if it was
    /// put aside, it is put aside no longer.
    pub fn send_result_response(
        &mut self,
        handle: ExecutingGoalHandle<A::GoalType>,
        req_id: RmwRequestId,
        result_status: GoalEndStatus,
        result: A::ResultType,
    ) -> (sent: Result<(GoalStatusArray, Reply<GetResultResponse<A::ResultType>>), GoalError<()>>)
        ensures
            final(self).goals() == goals_after(
                old(self).goals(),
                ServerCall::SendResultResponse { goal_id: handle.spec_goal_id(), result_status },
            ),
            final(self).result_requests() == result_requests_after_result(
                old(self).result_requests(),
                old(self).goals(),
                handle.spec_goal_id(),
                result_status,
            ),
            is_well_formed(old(self).goals()) ==> is_well_formed(final(self).goals()),
            sent is Ok <==> takes_effect(
                old(self).goals(),
                ServerCall::SendResultResponse { goal_id: handle.spec_goal_id(), result_status },
            ),
            sent matches Ok((statuses, reply)) ==> {
                &&& is_status_list_of(statuses@, final(self).goals())
                &&& reply == (Reply {
                    req_id,
                    response: GetResultResponse { status: result_status.spec_status(), result },
                })
            },
            sent matches Err(e) ==> is_refusal(e, old(self).goals(), handle.spec_goal_id()),
    {
        let status = result_status.status();
        let goal_id = handle.inner.goal_id;
        match self.status_of(goal_id) {
            None => Err(GoalError::NoSuchGoal),
            Some(GoalStatusEnum::Accepted)
            | Some(GoalStatusEnum::Executing)
            | Some(GoalStatusEnum::Canceling) => {
                self.set_status(goal_id, status);
                self.result_requests.remove(&goal_id.value);
                let statuses = self.publish_statuses();
                let reply = Reply { req_id, response: GetResultResponse { status, result } };
                Ok((statuses, reply))
            },
            Some(_) => Err(GoalError::WrongGoalState),
        }
    }

    /// Aborts an executing goal, because the server cannot go on with it.
    ///
    /// The goal must be in status `Accepted` or `Executing`. It then becomes
    /// `Aborted`. To be sent: the status broadcast. No result is sent: the
    /// server still owes the client [`Self::send_result_response`].
    pub fn abort_executing_goal(&mut self, handle: ExecutingGoalHandle<A::GoalType>) -> (aborted:
        Result<GoalStatusArray, GoalError<()>>)
        ensures
            final(self).goals() == goals_after(
                old(self).goals(),
                ServerCall::AbortGoal { goal_id: handle.spec_goal_id() },
            ),
            final(self).result_requests() == old(self).result_requests(),
            is_well_formed(old(self).goals()) ==> is_well_formed(final(self).goals()),
            aborted is Ok <==> takes_effect(
                old(self).goals(),
                ServerCall::AbortGoal { goal_id: handle.spec_goal_id() },
            ),
            aborted matches Ok(statuses) ==> is_status_list_of(statuses@, final(self).goals()),
            aborted matches Err(e) ==> is_refusal(e, old(self).goals(), handle.spec_goal_id()),
    {
        self.abort_goal(handle.inner)
    }

    /// Aborts an accepted goal.
    ///
    /// The goal must be in status `Accepted` or `Executing`. It then becomes
    /// `Aborted`. To be sent: the status broadcast. No result is sent.
    pub fn abort_accepted_goal(&mut self, handle: AcceptedGoalHandle<A::GoalType>) -> (aborted:
        Result<GoalStatusArray, GoalError<()>>)
        ensures
            final(self).goals() == goals_after(
                old(self).goals(),
                ServerCall::AbortGoal { goal_id: handle.spec_goal_id() },
            ),
            final(self).result_requests() == old(self).result_requests(),
            is_well_formed(old(self).goals()) ==> is_well_formed(final(self).goals()),
            aborted is Ok <==> takes_effect(
                old(self).goals(),
                ServerCall::AbortGoal { goal_id: handle.spec_goal_id() },
            ),
            aborted matches Ok(statuses) ==> is_status_list_of(statuses@, final(self).goals()),
            aborted matches Err(e) ==> is_refusal(e, old(self).goals(), handle.spec_goal_id()),
    {
        self.abort_goal(handle.inner)
    }

    fn abort_goal(&mut self, handle: InnerGoalHandle<A::GoalType>) -> (aborted: Result<
        GoalStatusArray,
        GoalError<()>,
    >)
        ensures
            final(self).goals() == goals_after(
                old(self).goals(),
                ServerCall::AbortGoal { goal_id: handle.goal_id },
            ),
            final(self).result_requests() == old(self).result_requests(),
            is_well_formed(old(self).goals()) ==> is_well_formed(final(self).goals()),
            aborted is Ok <==> takes_effect(
                old(self).goals(),
                ServerCall::AbortGoal { goal_id: handle.goal_id },
            ),
            aborted matches Ok(statuses) ==> is_status_list_of(statuses@, final(self).goals()),
            aborted matches Err(e) ==> is_refusal(e, old(self).goals(), handle.goal_id),
    {
        match self.status_of(handle.goal_id) {
            None => Err(GoalError::NoSuchGoal),
            Some(GoalStatusEnum::Accepted) | Some(GoalStatusEnum::Executing) => {
                self.set_status(handle.goal_id, GoalStatusEnum::Aborted);
                Ok(self.publish_statuses())
            },
            Some(_) => Err(GoalError::WrongGoalState),
        }
    }

    /// Takes in a cancel request that has arrived under `req_id`.
    ///
    /// Returns a handle that names the goals which the request asks to cancel:
    /// those in status `Accepted` or `Executing` that the request picks out, in
    /// the order of their ids. The registry does not change. The server should
    /// then answer with [`Self::respond_to_cancel_requests`].
    pub fn receive_cancel_request(&self, req_id: RmwRequestId, request: CancelGoalRequest) -> (handle:
        CancelHandle)
        ensures
            handle.spec_req_id() == req_id,
            is_cancel_list_of(handle.spec_goals(), request.goal_info, self.goals()),
    {
        let mut goals: Vec<GoalId> = Vec::new();
        let iter = self.goals.iter();
        let ghost entries = iter.remaining();
        proof {
            lemma_entries_in_key_order(entries);
        }
        for entry in it: iter
            invariant
                it.seq() == entries,
                forall|i: int, j: int|
                    0 <= i < j < entries.len() ==> *(#[trigger] entries[i]).0 < *(
                    #[trigger] entries[j]).0,
                forall|a: int|
                    0 <= a < goals@.len() ==> is_candidate_among(
                        entries,
                        it.index(),
                        request.goal_info,
                        #[trigger] goals@[a],
                    ),
                forall|a: int, b: int|
                    0 <= a < b < goals@.len() ==> (#[trigger] goals@[a])@ < (#[trigger] goals@[b])@,
                forall|j: int|
                    0 <= j < it.index() && is_cancel_candidate(
                        request.goal_info,
                        *(#[trigger] entries[j]).0,
                        *entries[j].1,
                    ) ==> goals@.contains(UUID { value: *entries[j].0 }),
        {
            let (id, goal) = entry;
            let goal_id = UUID { value: *id };
            if goal.status.is_cancelable() && cancel_selects(
                &request.goal_info,
                goal_id,
                goal.accepted_time,
            ) {
                let ghost before = goals@;
                goals.push(goal_id);
                proof {
                    let n = it.index();
                    assert(entries[n] == entry);
                    assert forall|a: int| 0 <= a < goals@.len() implies is_candidate_among(
                        entries,
                        n + 1,
                        request.goal_info,
                        #[trigger] goals@[a],
                    ) by {
                        if a < before.len() {
                            assert(goals@[a] == before[a]);
                            assert(is_candidate_among(entries, n, request.goal_info, before[a]));
                        } else {
                            assert(*entries[n].0 == goals@[a]@);
                        }
                    }
                    assert forall|a: int, b: int| 0 <= a < b < goals@.len() implies (
                    #[trigger] goals@[a])@ < (#[trigger] goals@[b])@ by {
                        assert(goals@[a] == before[a]);
                        if b < before.len() {
                            assert(goals@[b] == before[b]);
                        } else {
                            assert(is_candidate_among(entries, n, request.goal_info, before[a]));
                            let j = choose|j: int|
                                0 <= j < n && *(#[trigger] entries[j]).0 == before[a]@;
                            assert(*entries[j].0 < *entries[n].0);
                        }
                    }
                    assert forall|j: int|
                        0 <= j < n + 1 && is_cancel_candidate(
                            request.goal_info,
                            *(#[trigger] entries[j]).0,
                            *entries[j].1,
                        ) implies goals@.contains(UUID { value: *entries[j].0 }) by {
                        if j < n {
                            let a = choose|a: int|
                                0 <= a < before.len() && before[a] == (UUID {
                                    value: *entries[j].0,
                                });
                            assert(goals@[a] == before[a]);
                        } else {
                            assert(goals@[before.len() as int] == goal_id);
                        }
                    }
                }
            }
        }
        proof {
            assert forall|i: int| 0 <= i < goals@.len() implies {
                let id = (#[trigger] goals@[i])@;
                self.goals@.contains_key(id) && is_cancel_candidate(
                    request.goal_info,
                    id,
                    self.goals@[id],
                )
            } by {
                assert(is_candidate_among(entries, entries.len() as int, request.goal_info, goals@[i]));
                let j = choose|j: int|
                    0 <= j < entries.len() && *(#[trigger] entries[j]).0 == goals@[i]@
                        && is_cancel_candidate(request.goal_info, *entries[j].0, *entries[j].1);
                assert(self.goals@.contains_key(*entries[j].0));
            }
            assert forall|id: u128|
                #![trigger self.goals@.contains_key(id)]
                self.goals@.contains_key(id) && is_cancel_candidate(
                    request.goal_info,
                    id,
                    self.goals@[id],
                ) implies goals@.contains(UUID { value: id }) by {
                let entry = (&id, &self.goals@[id]);
                assert(entries.contains(entry));
                let j = choose|j: int| 0 <= j < entries.len() && entries[j] == entry;
                assert(*entries[j].0 == id);
            }
        }
        CancelHandle { req_id, goals }
    }

    /// Answers a cancel request, naming the goals that the server will cancel.
    ///
    /// Each goal of `goals_to_cancel` that the registry holds as `Accepted` or
    /// `Executing`, with an acceptance time, becomes `Canceling`; the others
    /// are passed over, among them the goals that have ended and those that
    /// are `Canceling` already. To be sent, in this order: the status
    /// broadcast, then the reply to the cancel request. The reply lists the
    /// goals that became `Canceling`, in the order of `goals_to_cancel` and as
    /// often as they are named there, each with its acceptance time; its
    /// return code is `ErrorNone` where the list holds a goal and `Rejected`
    /// where it holds none.
    pub fn respond_to_cancel_requests(
        &mut self,
        cancel_handle: &CancelHandle,
        goals_to_cancel: &Vec<GoalId>,
    ) -> (answer: (GoalStatusArray, Reply<CancelGoalResponse>))
        ensures
            final(self).goals() == goals_after(
                old(self).goals(),
                ServerCall::RespondToCancelRequests { goals_to_cancel: goals_to_cancel@ },
            ),
            final(self).result_requests() == old(self).result_requests(),
            is_well_formed(old(self).goals()) ==> is_well_formed(final(self).goals()),
            is_status_list_of(answer.0@, final(self).goals()),
            answer.1.req_id == cancel_handle.spec_req_id(),
            answer.1.response.goals_canceling@ == canceling_infos(
                old(self).goals(),
                goals_to_cancel@,
            ),
            answer.1.response.return_code == if canceling_infos(
                old(self).goals(),
                goals_to_cancel@,
            ).len() == 0 {
                CancelGoalResponseEnum::Rejected
            } else {
                CancelGoalResponseEnum::ErrorNone
            },
    {
        let canceling_goals = self.goals_that_start_canceling(goals_to_cancel);
        let mut i: usize = 0;
        assert(goals_to_cancel@.take(0) =~= Seq::<GoalId>::empty());
        assert(self.goals@ =~= with_canceling(old(self).goals@, goals_to_cancel@.take(0)));
        while i < goals_to_cancel.len()
            invariant
                i <= goals_to_cancel.len(),
                self.goals@ == with_canceling(old(self).goals@, goals_to_cancel@.take(i as int)),
                self.result_requests@ == old(self).result_requests@,
            decreases goals_to_cancel.len() - i,
        {
            let goal_id = goals_to_cancel[i];
            let ghost done = goals_to_cancel@.take(i as int);
            let ghost next = goals_to_cancel@.take(i + 1);
            proof {
                assert forall|id: GoalId| next.contains(id) <==> (done.contains(id) || id
                    == goal_id) by {
                    if next.contains(id) {
                        let k = choose|k: int| 0 <= k < next.len() && next[k] == id;
                        if k < i {
                            assert(done[k] == id);
                        }
                    }
                    if done.contains(id) {
                        let k = choose|k: int| 0 <= k < done.len() && done[k] == id;
                        assert(next[k] == id);
                    }
                    if id == goal_id {
                        assert(next[i as int] == id);
                    }
                }
                assert(goal_id == UUID { value: goal_id@ });
            }
            match self.goals.remove(&goal_id.value) {
                Some(goal) => {
                    let status = if goal.status.is_cancelable() && goal.accepted_time.is_some() {
                        GoalStatusEnum::Canceling
                    } else {
                        goal.status
                    };
                    self.goals.insert(
                        goal_id.value,
                        AsyncGoal { status, accepted_time: goal.accepted_time, goal: goal.goal },
                    );
                },
                None => {},
            }
            proof {
                assert(self.goals@ =~= with_canceling(old(self).goals@, next));
            }
            i += 1;
        }
        assert(goals_to_cancel@.take(goals_to_cancel@.len() as int) == goals_to_cancel@);
        let statuses = self.publish_statuses();
        let return_code = if canceling_goals.len() == 0 {
            CancelGoalResponseEnum::Rejected
        } else {
            CancelGoalResponseEnum::ErrorNone
        };
        let reply = Reply {
            req_id: cancel_handle.req_id,
            response: CancelGoalResponse { return_code, goals_canceling: canceling_goals },
        };
        (statuses, reply)
    }

    /// The goals of `goals_to_cancel` that start canceling as the registry
    /// stands, each with its acceptance time, in the order given.
    fn goals_that_start_canceling(&self, goals_to_cancel: &Vec<GoalId>) -> (canceling: Vec<GoalInfo>)
        ensures
            canceling@ == canceling_infos(self.goals(), goals_to_cancel@),
    {
        let mut canceling: Vec<GoalInfo> = Vec::new();
        let mut i: usize = 0;
        assert(goals_to_cancel@.take(0) =~= Seq::<GoalId>::empty());
        while i < goals_to_cancel.len()
            invariant
                i <= goals_to_cancel.len(),
                canceling@ == canceling_infos(self.goals@, goals_to_cancel@.take(i as int)),
            decreases goals_to_cancel.len() - i,
        {
            let goal_id = goals_to_cancel[i];
            proof {
                let next = goals_to_cancel@.take(i + 1);
                assert(next.drop_last() == goals_to_cancel@.take(i as int));
                assert(next.last() == goal_id);
            }
            match self.goals.get(&goal_id.value) {
                Some(goal) => {
                    if goal.status.is_cancelable() {
                        match goal.accepted_time {
                            Some(stamp) => {
                                canceling.push(GoalInfo { goal_id, stamp });
                            },
                            None => {},
                        }
                    }
                },
                None => {},
            }
            i += 1;
        }
        assert(goals_to_cancel@.take(goals_to_cancel@.len() as int) == goals_to_cancel@);
        canceling
    }

    /// The status broadcast of the registry as it stands.
    pub fn publish_statuses(&self) -> (array: GoalStatusArray)
        ensures
            is_status_list_of(array@, self.goals()),
    {
        let mut status_list: Vec<GoalStatus> = Vec::new();
        let iter = self.goals.iter();
        let ghost entries = iter.remaining();
        proof {
            lemma_entries_in_key_order(entries);
        }
        for entry in it: iter
            invariant
                it.seq() == entries,
                status_list@.len() == it.index(),
                forall|i: int|
                    0 <= i < it.index() ==> #[trigger] status_list@[i] == status_entry(
                        *entries[i].0,
                        *entries[i].1,
                    ),
        {
            let (goal_id, goal) = entry;
            let stamp = match goal.accepted_time {
                Some(stamp) => stamp,
                None => Time::zero(),
            };
            status_list.push(
                GoalStatus {
                    goal_info: GoalInfo { goal_id: UUID { value: *goal_id }, stamp },
                    status: goal.status,
                },
            );
        }
        proof {
            assert(status_list@.len() == entries.len());
            assert forall|id: u128| #[trigger] self.goals@.contains_key(id) implies exists|i: int|
                0 <= i < status_list@.len() && (#[trigger] status_list@[i]).goal_info.goal_id@
                    == id by {
                let entry = (&id, &self.goals@[id]);
                assert(entries.contains(entry));
                let i = choose|i: int| 0 <= i < entries.len() && entries[i] == entry;
                assert(status_list@[i].goal_info.goal_id@ == id);
            }
        }
        GoalStatusArray { status_list }
    }
}

/// Whether one of the first `n` entries is the goal `goal_id` and is asked to
/// cancel by the request.
spec fn is_candidate_among<G>(
    entries: Seq<(&u128, &AsyncGoal<G>)>,
    n: int,
    request: GoalInfo,
    goal_id: GoalId,
) -> bool {
    exists|j: int|
        0 <= j < n && *(#[trigger] entries[j]).0 == goal_id@ && is_cancel_candidate(
            request,
            *entries[j].0,
            *entries[j].1,
        )
}

/// A map's entries come out of its iterator by rising key.
proof fn lemma_entries_in_key_order<V>(entries: Seq<(&u128, &V)>)
    requires
        vstd::std_specs::btree::increasing_seq(entries.map_values(|kv: (&u128, &V)| *kv.0)),
    ensures
        forall|i: int, j: int|
            0 <= i < j < entries.len() ==> *(#[trigger] entries[i]).0 < *(#[trigger] entries[j]).0,
{
    let keys = entries.map_values(|kv: (&u128, &V)| *kv.0);
    assert forall|i: int, j: int| 0 <= i < j < entries.len() implies *(#[trigger] entries[i]).0 < *(
    #[trigger] entries[j]).0 by {
        assert(keys[i] == *entries[i].0);
        assert(keys[j] == *entries[j].0);
        assert(keys[i].cmp_spec(&keys[j]) is Less);
    }
}

} // verus!
