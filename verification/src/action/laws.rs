//! What holds of the action server and client whatever they are asked to do.

use vstd::prelude::*;

use crate::action::client::spec_receive_result;
use crate::action::goal::{GoalId, GoalInfo, GoalStatus, GoalStatusEnum};
use crate::action::registry::{
    canceling_infos, goals_after, is_cancel_candidate, is_cancel_list_of, is_status_list_of,
    is_well_formed, result_requests_after, result_requests_after_result, starts_canceling,
    takes_effect, with_canceling, Registry, ServerCall,
};
use crate::action::{GetResultRequest, GetResultResponse, GoalEndStatus};
use crate::interfaces::builtin_interfaces::Time;
use crate::interfaces::unique_identifier_msgs::UUID;
use crate::service::client::Polled;
use crate::service::request_id::RmwRequestId;

verus! {

/// The registry after a sequence of calls, made one after the other.
pub open spec fn goals_after_all<G>(goals: Registry<G>, calls: Seq<ServerCall<G>>) -> Registry<G>
    decreases calls.len(),
{
    if calls.len() == 0 {
        goals
    } else {
        goals_after(goals_after_all(goals, calls.drop_last()), calls.last())
    }
}

/// The ids of the goals to which a sequence of calls returns a new handle, in
/// the order in which the handles are returned: one for each goal request that
/// takes effect.
pub open spec fn new_goal_handles<G>(goals: Registry<G>, calls: Seq<ServerCall<G>>) -> Seq<GoalId>
    decreases calls.len(),
{
    if calls.len() == 0 {
        Seq::empty()
    } else {
        let earlier = new_goal_handles(goals, calls.drop_last());
        let reached = goals_after_all(goals, calls.drop_last());
        match calls.last() {
            ServerCall::ReceiveNewGoal { goal_id, .. } => if takes_effect(reached, calls.last()) {
                earlier.push(goal_id)
            } else {
                earlier
            },
            _ => earlier,
        }
    }
}

/// No call removes a goal from the registry.
pub proof fn lemma_goals_are_kept<G>(goals: Registry<G>, call: ServerCall<G>, id: u128)
    requires
        goals.contains_key(id),
    ensures
        goals_after(goals, call).contains_key(id),
{
}

/// No sequence of calls removes a goal from the registry.
pub proof fn lemma_goals_are_kept_by_all<G>(goals: Registry<G>, calls: Seq<ServerCall<G>>, id: u128)
    requires
        goals.contains_key(id),
    ensures
        goals_after_all(goals, calls).contains_key(id),
    decreases calls.len(),
{
    if calls.len() > 0 {
        lemma_goals_are_kept_by_all(goals, calls.drop_last(), id);
        lemma_goals_are_kept(goals_after_all(goals, calls.drop_last()), calls.last(), id);
    }
}

/// Every goal to which a sequence of calls returns a new handle is in the
/// registry afterwards, and was not in it before.
proof fn lemma_new_goal_handles_are_new<G>(goals: Registry<G>, calls: Seq<ServerCall<G>>, k: int)
    requires
        0 <= k < new_goal_handles(goals, calls).len(),
    ensures
        !goals.contains_key(new_goal_handles(goals, calls)[k]@),
        goals_after_all(goals, calls).contains_key(new_goal_handles(goals, calls)[k]@),
    decreases calls.len(),
{
    if calls.len() > 0 {
        let earlier = new_goal_handles(goals, calls.drop_last());
        let reached = goals_after_all(goals, calls.drop_last());
        if k < earlier.len() {
            lemma_new_goal_handles_are_new(goals, calls.drop_last(), k);
            lemma_goals_are_kept(reached, calls.last(), earlier[k]@);
        } else {
            let id = new_goal_handles(goals, calls)[k];
            if goals.contains_key(id@) {
                lemma_goals_are_kept_by_all(goals, calls.drop_last(), id@);
            }
        }
    }
}

/// Uniqueness of goals. Whatever calls are made and in whatever order, the
/// new handles that they return are handles to pairwise distinct goals, none
/// of which the registry held before; a goal request with an id that is
/// already known returns none.
pub proof fn lemma_new_goal_handles_are_distinct<G>(goals: Registry<G>, calls: Seq<ServerCall<G>>)
    ensures
        new_goal_handles(goals, calls).no_duplicates(),
        forall|k: int|
            0 <= k < new_goal_handles(goals, calls).len() ==> !goals.contains_key(
                (#[trigger] new_goal_handles(goals, calls)[k])@,
            ),
    decreases calls.len(),
{
    let handles = new_goal_handles(goals, calls);
    assert forall|k: int| 0 <= k < handles.len() implies !goals.contains_key(
        (#[trigger] handles[k])@,
    ) by {
        lemma_new_goal_handles_are_new(goals, calls, k);
    }
    if calls.len() > 0 {
        let earlier = new_goal_handles(goals, calls.drop_last());
        lemma_new_goal_handles_are_distinct(goals, calls.drop_last());
        assert forall|i: int, j: int| 0 <= i < j < handles.len() implies handles[i]
            != handles[j] by {
            if j < earlier.len() {
                assert(handles[i] == earlier[i] && handles[j] == earlier[j]);
            } else {
                lemma_new_goal_handles_are_new(goals, calls.drop_last(), i);
                assert(handles[i] == earlier[i]);
            }
        }
    }
}

/// The transitions of a goal's life cycle: from `Unknown` to `Accepted`; from
/// `Accepted` to `Executing` or `Aborted`; from `Executing` to `Succeeded`,
/// `Canceling` or `Aborted`; from `Canceling` to `Canceled`, `Aborted` or
/// `Succeeded`. Nothing leads away from `Succeeded`, `Canceled` or `Aborted`.
pub open spec fn is_life_cycle_transition(from: GoalStatusEnum, to: GoalStatusEnum) -> bool {
    match from {
        GoalStatusEnum::Unknown => to is Accepted,
        GoalStatusEnum::Accepted => to is Executing || to is Aborted,
        GoalStatusEnum::Executing => to is Succeeded || to is Canceling || to is Aborted,
        GoalStatusEnum::Canceling => to is Canceled || to is Aborted || to is Succeeded,
        GoalStatusEnum::Succeeded => false,
        GoalStatusEnum::Canceled => false,
        GoalStatusEnum::Aborted => false,
    }
}

/// Whether the call keeps to the life cycle. Two kinds of call can leave it,
/// and do so on these inputs only: a result sent with an end status to which
/// no transition leads from the goal's status (`Succeeded` or `Canceled` for
/// an `Accepted` goal, `Canceled` for an `Executing` one); and an answer to a
/// cancel request that starts canceling an `Accepted` goal, which goes to
/// `Canceling` without having been `Executing`.
pub open spec fn keeps_to_life_cycle<G>(goals: Registry<G>, call: ServerCall<G>) -> bool {
    match call {
        ServerCall::SendResultResponse { goal_id, result_status } => takes_effect(goals, call)
            ==> is_life_cycle_transition(goals[goal_id@].status, result_status.spec_status()),
        ServerCall::RespondToCancelRequests { goals_to_cancel } => forall|i: int|
            0 <= i < goals_to_cancel.len() && starts_canceling(goals, #[trigger] goals_to_cancel[i])
                ==> goals[goals_to_cancel[i]@].status is Executing,
        _ => true,
    }
}

/// Soundness of the life cycle, one call. A call that keeps to the life cycle
/// leaves each goal's status as it was or moves it along one transition of
/// the life cycle, and a goal that arrives starts out `Unknown`.
pub proof fn lemma_call_follows_life_cycle<G>(goals: Registry<G>, call: ServerCall<G>, id: u128)
    requires
        keeps_to_life_cycle(goals, call),
        goals_after(goals, call).contains_key(id),
    ensures
        goals.contains_key(id) ==> goals_after(goals, call)[id].status == goals[id].status
            || is_life_cycle_transition(goals[id].status, goals_after(goals, call)[id].status),
        !goals.contains_key(id) ==> goals_after(goals, call)[id].status is Unknown,
{
    match call {
        ServerCall::RespondToCancelRequests { goals_to_cancel } => {
            if goals_to_cancel.contains(UUID { value: id }) && starts_canceling(
                goals,
                UUID { value: id },
            ) {
                let i = choose|i: int|
                    0 <= i < goals_to_cancel.len() && goals_to_cancel[i] == (UUID { value: id });
                assert(starts_canceling(goals, goals_to_cancel[i]));
            }
        },
        _ => {},
    }
}

/// Whether each call of the sequence keeps to the life cycle when its turn
/// comes.
pub open spec fn all_keep_to_life_cycle<G>(goals: Registry<G>, calls: Seq<ServerCall<G>>) -> bool {
    forall|n: int|
        0 <= n < calls.len() ==> keeps_to_life_cycle(
            goals_after_all(goals, #[trigger] calls.take(n)),
            calls[n],
        )
}

/// Soundness of the life cycle, any number of calls. While the calls keep to
/// the life cycle, each call leaves the status of each goal as it was or
/// moves it along one transition of the life cycle.
pub proof fn lemma_calls_follow_life_cycle<G>(
    goals: Registry<G>,
    calls: Seq<ServerCall<G>>,
    n: int,
    id: u128,
)
    requires
        all_keep_to_life_cycle(goals, calls),
        0 <= n < calls.len(),
        goals_after_all(goals, calls.take(n)).contains_key(id),
    ensures
        goals_after_all(goals, calls.take(n + 1)).contains_key(id),
        ({
            let before = goals_after_all(goals, calls.take(n))[id].status;
            let after = goals_after_all(goals, calls.take(n + 1))[id].status;
            after == before || is_life_cycle_transition(before, after)
        }),
{
    let reached = goals_after_all(goals, calls.take(n));
    assert(calls.take(n + 1).drop_last() == calls.take(n));
    assert(calls.take(n + 1).last() == calls[n]);
    lemma_goals_are_kept(reached, calls[n], id);
    lemma_call_follows_life_cycle(reached, calls[n], id);
}

/// A goal that has ended stays as it ended: no call changes the status of a
/// goal that is `Succeeded`, `Canceled` or `Aborted`, and none but the sending
/// of its result changes the status of a goal that is `Canceling`.
pub proof fn lemma_ended_goal_stays<G>(goals: Registry<G>, call: ServerCall<G>, id: u128)
    requires
        goals.contains_key(id),
    ensures
        goals_after(goals, call).contains_key(id),
        goals[id].status.spec_is_terminal() ==> goals_after(goals, call)[id].status
            == goals[id].status,
        goals[id].status is Canceling && !(call is SendResultResponse) ==> goals_after(
            goals,
            call,
        )[id].status is Canceling,
{
}

/// A goal that has ended stays as it ended, whatever calls are made and in
/// whatever order.
pub proof fn lemma_ended_goals_stay<G>(goals: Registry<G>, calls: Seq<ServerCall<G>>, id: u128)
    requires
        goals.contains_key(id),
        goals[id].status.spec_is_terminal(),
    ensures
        goals_after_all(goals, calls).contains_key(id),
        goals_after_all(goals, calls)[id].status == goals[id].status,
    decreases calls.len(),
{
    if calls.len() > 0 {
        lemma_ended_goals_stay(goals, calls.drop_last(), id);
        lemma_ended_goal_stays(goals_after_all(goals, calls.drop_last()), calls.last(), id);
    }
}

/// What an abort does. It takes effect exactly on a known goal that is
/// `Accepted` or `Executing`; the goal is then `Aborted`, with its acceptance
/// time and the goal itself as they were, and every other goal is as it was.
/// An abort that takes no effect changes nothing.
pub proof fn lemma_abort_changes_the_status_only<G>(
    goals: Registry<G>,
    goal_id: GoalId,
    other: u128,
)
    ensures
        ({
            let call = ServerCall::AbortGoal { goal_id };
            let after = goals_after(goals, call);
            &&& takes_effect(goals, call) <==> goals.contains_key(goal_id@) && (
            goals[goal_id@].status is Accepted || goals[goal_id@].status is Executing)
            &&& takes_effect(goals, call) ==> {
                &&& after[goal_id@].status is Aborted
                &&& after[goal_id@].accepted_time == goals[goal_id@].accepted_time
                &&& after[goal_id@].goal == goals[goal_id@].goal
            }
            &&& !takes_effect(goals, call) ==> after == goals
            &&& after.contains_key(other) <==> goals.contains_key(other)
            &&& other != goal_id@ && goals.contains_key(other) ==> after[other] == goals[other]
        }),
{
}

/// Every call keeps the registry well formed: a goal has an acceptance time
/// exactly if its status is not `Unknown`.
pub proof fn lemma_well_formed_is_kept<G>(goals: Registry<G>, call: ServerCall<G>)
    requires
        is_well_formed(goals),
    ensures
        is_well_formed(goals_after(goals, call)),
{
}

/// Every sequence of calls keeps the registry well formed.
pub proof fn lemma_well_formed_is_kept_by_all<G>(goals: Registry<G>, calls: Seq<ServerCall<G>>)
    requires
        is_well_formed(goals),
    ensures
        is_well_formed(goals_after_all(goals, calls)),
    decreases calls.len(),
{
    if calls.len() > 0 {
        lemma_well_formed_is_kept_by_all(goals, calls.drop_last());
        lemma_well_formed_is_kept(goals_after_all(goals, calls.drop_last()), calls.last());
    }
}

/// An answer that names goals which are `Accepted` or `Executing` cancels
/// them all: in a well formed registry each of them is listed in the reply,
/// at its place and with its acceptance time, and is `Canceling` afterwards.
/// So it is with the goals that a cancel handle names.
pub proof fn lemma_named_goals_are_canceled<G>(goals: Registry<G>, goals_to_cancel: Seq<GoalId>)
    requires
        is_well_formed(goals),
        forall|i: int|
            0 <= i < goals_to_cancel.len() ==> goals.contains_key((#[trigger] goals_to_cancel[i])@)
                && goals[goals_to_cancel[i]@].status.spec_is_cancelable(),
    ensures
        canceling_infos(goals, goals_to_cancel).len() == goals_to_cancel.len(),
        forall|i: int|
            0 <= i < goals_to_cancel.len() ==> (#[trigger] canceling_infos(
                goals,
                goals_to_cancel,
            )[i]) == (GoalInfo {
                goal_id: goals_to_cancel[i],
                stamp: goals[goals_to_cancel[i]@].accepted_time->0,
            }),
        forall|i: int|
            0 <= i < goals_to_cancel.len() ==> with_canceling(goals, goals_to_cancel)[(
            #[trigger] goals_to_cancel[i])@].status is Canceling,
    decreases goals_to_cancel.len(),
{
    if goals_to_cancel.len() > 0 {
        let earlier = goals_to_cancel.drop_last();
        lemma_named_goals_are_canceled(goals, earlier);
        assert(starts_canceling(goals, goals_to_cancel.last()));
        assert forall|i: int| 0 <= i < goals_to_cancel.len() implies (#[trigger] canceling_infos(
            goals,
            goals_to_cancel,
        )[i]) == (GoalInfo {
            goal_id: goals_to_cancel[i],
            stamp: goals[goals_to_cancel[i]@].accepted_time->0,
        }) by {
            if i < earlier.len() {
                assert(earlier[i] == goals_to_cancel[i]);
                assert(canceling_infos(goals, goals_to_cancel)[i] == canceling_infos(
                    goals,
                    earlier,
                )[i]);
            }
        }
    }
    assert forall|i: int| 0 <= i < goals_to_cancel.len() implies with_canceling(
        goals,
        goals_to_cancel,
    )[(#[trigger] goals_to_cancel[i])@].status is Canceling by {
        let goal_id = goals_to_cancel[i];
        assert(goal_id == UUID { value: goal_id@ });
        assert(goals_to_cancel.contains(UUID { value: goal_id@ }));
        assert(starts_canceling(goals, goal_id));
    }
}

/// The goals that a cancel handle names are all canceled when the server
/// answers with them: each is known and is `Accepted` or `Executing`.
pub proof fn lemma_cancel_list_can_be_answered<G>(
    list: Seq<GoalId>,
    request: GoalInfo,
    goals: Registry<G>,
)
    requires
        is_well_formed(goals),
        is_cancel_list_of(list, request, goals),
    ensures
        canceling_infos(goals, list).len() == list.len(),
        forall|i: int|
            0 <= i < list.len() ==> with_canceling(goals, list)[(#[trigger] list[i])@].status
                is Canceling,
{
    assert forall|i: int| 0 <= i < list.len() implies goals.contains_key((#[trigger] list[i])@)
        && goals[list[i]@].status.spec_is_cancelable() by {
        assert(is_cancel_candidate(request, list[i]@, goals[list[i]@]));
    }
    lemma_named_goals_are_canceled(goals, list);
}

/// An acceptance time is set once and never changed: once a goal has one, no
/// call gives it another or takes it away.
pub proof fn lemma_accepted_time_is_kept<G>(goals: Registry<G>, call: ServerCall<G>, id: u128)
    requires
        goals.contains_key(id),
        goals[id].status is Unknown <==> goals[id].accepted_time is None,
    ensures
        goals_after(goals, call).contains_key(id),
        goals[id].accepted_time is Some ==> goals_after(goals, call)[id].accepted_time
            == goals[id].accepted_time,
        goals_after(goals, call)[id].status is Unknown <==> goals_after(
            goals,
            call,
        )[id].accepted_time is None,
{
}

/// Whether `list[i]` is the one entry of the list that speaks of the goal
/// `id`.
pub open spec fn is_the_entry_of(list: Seq<GoalStatus>, i: int, id: u128) -> bool {
    &&& 0 <= i < list.len()
    &&& list[i].goal_info.goal_id@ == id
    &&& forall|j: int| 0 <= j < list.len() && (#[trigger] list[j]).goal_info.goal_id@ == id ==> j == i
}

/// Completeness of the status broadcast. A status broadcast of the registry
/// holds, for each goal of the registry, exactly one entry, and that entry
/// gives the goal's current status; it holds no entry for any other goal.
pub proof fn lemma_status_list_is_complete<G>(list: Seq<GoalStatus>, goals: Registry<G>)
    requires
        is_status_list_of(list, goals),
    ensures
        forall|id: u128| #[trigger]
            goals.contains_key(id) ==> exists|i: int| #[trigger]
                is_the_entry_of(list, i, id) && list[i].status == goals[id].status,
        forall|i: int|
            0 <= i < list.len() ==> goals.contains_key((#[trigger] list[i]).goal_info.goal_id@),
{
    assert forall|id: u128| #[trigger] goals.contains_key(id) implies exists|i: int| #[trigger]
        is_the_entry_of(list, i, id) && list[i].status == goals[id].status by {
        let i = choose|i: int| 0 <= i < list.len() && (#[trigger] list[i]).goal_info.goal_id@ == id;
        assert forall|j: int|
            0 <= j < list.len() && (#[trigger] list[j]).goal_info.goal_id@ == id implies j == i by {
            if j < i {
                assert(list[j].goal_info.goal_id@ < list[i].goal_info.goal_id@);
            }
            if i < j {
                assert(list[i].goal_info.goal_id@ < list[j].goal_info.goal_id@);
            }
        }
        assert(is_the_entry_of(list, i, id));
    }
}

/// Two rising sequences that hold the same numbers agree up to any place
/// that both reach.
proof fn lemma_rising_sequences_agree_at(a: Seq<u128>, b: Seq<u128>, i: int)
    requires
        forall|x: int, y: int| 0 <= x < y < a.len() ==> a[x] < a[y],
        forall|x: int, y: int| 0 <= x < y < b.len() ==> b[x] < b[y],
        forall|k: u128| a.contains(k) <==> b.contains(k),
        0 <= i < a.len(),
        0 <= i < b.len(),
    ensures
        a[i] == b[i],
    decreases i,
{
    assert(a.contains(a[i]));
    let j = choose|j: int| 0 <= j < b.len() && b[j] == a[i];
    if j < i {
        lemma_rising_sequences_agree_at(a, b, j);
    }
    assert(b.contains(b[i]));
    let k = choose|k: int| 0 <= k < a.len() && a[k] == b[i];
    if k < i {
        lemma_rising_sequences_agree_at(a, b, k);
    }
}

/// Two rising sequences that hold the same numbers are the same sequence.
proof fn lemma_rising_sequences_are_equal(a: Seq<u128>, b: Seq<u128>)
    requires
        forall|x: int, y: int| 0 <= x < y < a.len() ==> a[x] < a[y],
        forall|x: int, y: int| 0 <= x < y < b.len() ==> b[x] < b[y],
        forall|k: u128| a.contains(k) <==> b.contains(k),
    ensures
        a == b,
{
    if a.len() < b.len() {
        let n = a.len() as int;
        assert(b.contains(b[n]));
        let j = choose|j: int| 0 <= j < a.len() && a[j] == b[n];
        lemma_rising_sequences_agree_at(a, b, j);
    }
    if b.len() < a.len() {
        let n = b.len() as int;
        assert(a.contains(a[n]));
        let j = choose|j: int| 0 <= j < b.len() && b[j] == a[n];
        lemma_rising_sequences_agree_at(a, b, j);
    }
    assert forall|i: int| 0 <= i < a.len() implies a[i] == b[i] by {
        lemma_rising_sequences_agree_at(a, b, i);
    }
    assert(a =~= b);
}

/// The registry has one status broadcast only: two lists that both are its
/// status broadcast are the same list.
pub proof fn lemma_status_list_is_unique<G>(a: Seq<GoalStatus>, b: Seq<GoalStatus>, goals: Registry<G>)
    requires
        is_status_list_of(a, goals),
        is_status_list_of(b, goals),
    ensures
        a == b,
{
    let ids_a = Seq::new(a.len(), |i: int| a[i].goal_info.goal_id@);
    let ids_b = Seq::new(b.len(), |i: int| b[i].goal_info.goal_id@);
    assert forall|k: u128| ids_a.contains(k) <==> ids_b.contains(k) by {
        if ids_a.contains(k) {
            let i = choose|i: int| 0 <= i < ids_a.len() && ids_a[i] == k;
            assert(goals.contains_key(a[i].goal_info.goal_id@));
            let j = choose|j: int| 0 <= j < b.len() && (#[trigger] b[j]).goal_info.goal_id@ == k;
            assert(ids_b[j] == k);
        }
        if ids_b.contains(k) {
            let i = choose|i: int| 0 <= i < ids_b.len() && ids_b[i] == k;
            assert(goals.contains_key(b[i].goal_info.goal_id@));
            let j = choose|j: int| 0 <= j < a.len() && (#[trigger] a[j]).goal_info.goal_id@ == k;
            assert(ids_a[j] == k);
        }
    }
    assert forall|x: int, y: int| 0 <= x < y < ids_a.len() implies ids_a[x] < ids_a[y] by {
        assert(a[x].goal_info.goal_id@ < a[y].goal_info.goal_id@);
    }
    assert forall|x: int, y: int| 0 <= x < y < ids_b.len() implies ids_b[x] < ids_b[y] by {
        assert(b[x].goal_info.goal_id@ < b[y].goal_info.goal_id@);
    }
    lemma_rising_sequences_are_equal(ids_a, ids_b);
    assert forall|i: int| 0 <= i < a.len() implies a[i] == b[i] by {
        assert(ids_a[i] == ids_b[i]);
        assert(goals.contains_key(a[i].goal_info.goal_id@));
        assert(goals.contains_key(b[i].goal_info.goal_id@));
    }
    assert(a =~= b);
}

/// A cancel request has one cancel list only: two lists that both hold the
/// goals which the request asks to cancel are the same list.
pub proof fn lemma_cancel_list_is_unique<G>(
    a: Seq<GoalId>,
    b: Seq<GoalId>,
    request: GoalInfo,
    goals: Registry<G>,
)
    requires
        is_cancel_list_of(a, request, goals),
        is_cancel_list_of(b, request, goals),
    ensures
        a == b,
{
    let ids_a = Seq::new(a.len(), |i: int| a[i]@);
    let ids_b = Seq::new(b.len(), |i: int| b[i]@);
    assert forall|k: u128| ids_a.contains(k) <==> ids_b.contains(k) by {
        if ids_a.contains(k) {
            let i = choose|i: int| 0 <= i < ids_a.len() && ids_a[i] == k;
            assert(goals.contains_key(a[i]@));
            assert(b.contains(UUID { value: k }));
            let j = choose|j: int| 0 <= j < b.len() && b[j] == (UUID { value: k });
            assert(ids_b[j] == k);
        }
        if ids_b.contains(k) {
            let i = choose|i: int| 0 <= i < ids_b.len() && ids_b[i] == k;
            assert(goals.contains_key(b[i]@));
            assert(a.contains(UUID { value: k }));
            let j = choose|j: int| 0 <= j < a.len() && a[j] == (UUID { value: k });
            assert(ids_a[j] == k);
        }
    }
    assert forall|x: int, y: int| 0 <= x < y < ids_a.len() implies ids_a[x] < ids_a[y] by {
        assert(a[x]@ < a[y]@);
    }
    assert forall|x: int, y: int| 0 <= x < y < ids_b.len() implies ids_b[x] < ids_b[y] by {
        assert(b[x]@ < b[y]@);
    }
    lemma_rising_sequences_are_equal(ids_a, ids_b);
    assert forall|i: int| 0 <= i < a.len() implies a[i] == b[i] by {
        assert(ids_a[i] == ids_b[i]);
    }
    assert(a =~= b);
}

/// Correctness of the cancel list. The goals that a cancel handle names are
/// the set of the goals of the registry that are `Accepted` or `Executing` and
/// that the request picks out, each named once.
pub proof fn lemma_cancel_list_is_the_candidates<G>(
    list: Seq<GoalId>,
    request: GoalInfo,
    goals: Registry<G>,
)
    requires
        is_cancel_list_of(list, request, goals),
    ensures
        list.no_duplicates(),
        list.to_set() == Set::new(
            |goal_id: GoalId|
                goals.contains_key(goal_id@) && is_cancel_candidate(
                    request,
                    goal_id@,
                    goals[goal_id@],
                ),
        ),
{
    assert forall|i: int, j: int| 0 <= i < list.len() && 0 <= j < list.len() && i != j implies list[i]
        != list[j] by {
        if i < j {
            assert(list[i]@ < list[j]@);
        } else {
            assert(list[j]@ < list[i]@);
        }
    }
    let candidates = Set::new(
        |goal_id: GoalId|
            goals.contains_key(goal_id@) && is_cancel_candidate(request, goal_id@, goals[goal_id@]),
    );
    assert forall|goal_id: GoalId| list.to_set().contains(goal_id) <==> candidates.contains(
        goal_id,
    ) by {
        if list.to_set().contains(goal_id) {
            let i = choose|i: int| 0 <= i < list.len() && list[i] == goal_id;
            assert(goals.contains_key(list[i]@));
        }
        if candidates.contains(goal_id) {
            assert(goals.contains_key(goal_id@));
            assert(goal_id == UUID { value: goal_id@ });
        }
    }
    assert(list.to_set() =~= candidates);
}

/// What becomes of the result requests that arrive, one after the other,
/// while the server waits for the result request of the goal `awaited`: the
/// requests put aside by then, and the id of the awaited request once it has
/// come. The wait ends with the first request that asks for the awaited goal;
/// what arrives later is not looked at.
pub open spec fn wait_for_result_request(
    result_requests: Map<u128, RmwRequestId>,
    awaited: GoalId,
    arrivals: Seq<(RmwRequestId, GetResultRequest)>,
) -> (Map<u128, RmwRequestId>, Option<RmwRequestId>)
    decreases arrivals.len(),
{
    if arrivals.len() == 0 {
        (result_requests, None)
    } else if arrivals[0].1.goal_id == awaited {
        (result_requests, Some(arrivals[0].0))
    } else {
        wait_for_result_request(
            result_requests_after(
                result_requests,
                awaited,
                arrivals[0].0,
                arrivals[0].1.goal_id,
            ),
            awaited,
            arrivals.drop_first(),
        )
    }
}

/// Result requests are kept until they can be answered. A result request
/// that arrives while the server waits for another goal's result request is
/// put aside under its own goal, whatever was put aside before stays unless a
/// later request for the same goal takes its place, and nothing is ever put
/// aside for the awaited goal itself.
pub proof fn lemma_result_request_is_put_aside(
    result_requests: Map<u128, RmwRequestId>,
    awaited: GoalId,
    req_id: RmwRequestId,
    asked: GoalId,
    other: u128,
)
    ensures
        asked != awaited ==> result_requests_after(result_requests, awaited, req_id, asked)[asked@]
            == req_id && result_requests_after(
            result_requests,
            awaited,
            req_id,
            asked,
        ).contains_key(asked@),
        other != asked@ || asked == awaited ==> (result_requests_after(
            result_requests,
            awaited,
            req_id,
            asked,
        ).contains_key(other) <==> result_requests.contains_key(other)),
        other != asked@ || asked == awaited ==> (result_requests.contains_key(other)
            ==> result_requests_after(result_requests, awaited, req_id, asked)[other]
            == result_requests[other]),
{
}

/// A result request is answered once. When the server ends a goal and sends
/// its result, the goal's request waits no longer, and the requests put aside
/// for other goals stay as they are; a call that fails changes nothing.
pub proof fn lemma_answered_request_waits_no_longer<G>(
    result_requests: Map<u128, RmwRequestId>,
    goals: Registry<G>,
    goal_id: GoalId,
    result_status: GoalEndStatus,
    other: u128,
)
    ensures
        ({
            let call = ServerCall::SendResultResponse { goal_id, result_status };
            let after = result_requests_after_result(
                result_requests,
                goals,
                goal_id,
                result_status,
            );
            &&& takes_effect(goals, call) ==> !after.contains_key(goal_id@)
            &&& !takes_effect(goals, call) ==> after == result_requests
            &&& other != goal_id@ ==> (after.contains_key(other) <==> result_requests.contains_key(
                other,
            ))
            &&& other != goal_id@ && result_requests.contains_key(other) ==> after[other]
                == result_requests[other]
        }),
{
}

/// The wait for a result request ends with the first request that asks for
/// the awaited goal, and that request is the one to answer; every request
/// that arrived before it asked for another goal and has been put aside. If
/// no request for the awaited goal is among the arrivals, the wait goes on,
/// and all of them have been put aside.
pub proof fn lemma_wait_ends_with_the_awaited_request(
    result_requests: Map<u128, RmwRequestId>,
    awaited: GoalId,
    arrivals: Seq<(RmwRequestId, GetResultRequest)>,
)
    ensures
        ({
            let (put_aside, answer) = wait_for_result_request(result_requests, awaited, arrivals);
            &&& answer is None <==> forall|i: int|
                0 <= i < arrivals.len() ==> (#[trigger] arrivals[i]).1.goal_id != awaited
            &&& answer matches Some(req_id) ==> exists|n: int|
                {
                    &&& 0 <= n < arrivals.len()
                    &&& #[trigger] arrivals[n] == (req_id, GetResultRequest { goal_id: awaited })
                    &&& forall|i: int|
                        0 <= i < n ==> (#[trigger] arrivals[i]).1.goal_id != awaited
                            && put_aside.contains_key(arrivals[i].1.goal_id@)
                }
            &&& answer is None ==> forall|i: int|
                0 <= i < arrivals.len() ==> put_aside.contains_key(
                    (#[trigger] arrivals[i]).1.goal_id@,
                )
            &&& forall|id: u128| result_requests.contains_key(id) ==> put_aside.contains_key(id)
        }),
    decreases arrivals.len(),
{
    if arrivals.len() > 0 {
        if arrivals[0].1.goal_id == awaited {
            assert(arrivals[0] == (arrivals[0].0, GetResultRequest { goal_id: awaited }));
        } else {
            let next = result_requests_after(
                result_requests,
                awaited,
                arrivals[0].0,
                arrivals[0].1.goal_id,
            );
            let rest = arrivals.drop_first();
            lemma_wait_ends_with_the_awaited_request(next, awaited, rest);
            let (put_aside, answer) = wait_for_result_request(next, awaited, rest);
            assert(forall|i: int| 0 <= i < rest.len() ==> rest[i] == arrivals[i + 1]);
            assert(put_aside.contains_key(arrivals[0].1.goal_id@));
            if answer is None {
                assert forall|i: int| 0 <= i < arrivals.len() implies (
                #[trigger] arrivals[i]).1.goal_id != awaited && put_aside.contains_key(
                    arrivals[i].1.goal_id@,
                ) by {
                    if i > 0 {
                        assert(rest[i - 1] == arrivals[i]);
                    }
                }
            } else {
                let req_id = answer->0;
                let m = choose|n: int|
                    {
                        &&& 0 <= n < rest.len()
                        &&& #[trigger] rest[n] == (req_id, GetResultRequest { goal_id: awaited })
                        &&& forall|i: int|
                            0 <= i < n ==> (#[trigger] rest[i]).1.goal_id != awaited
                                && put_aside.contains_key(rest[i].1.goal_id@)
                    };
                assert(arrivals[m + 1] == (req_id, GetResultRequest { goal_id: awaited }));
                assert forall|i: int| 0 <= i < m + 1 implies (#[trigger] arrivals[i]).1.goal_id
                    != awaited && put_aside.contains_key(arrivals[i].1.goal_id@) by {
                    if i > 0 {
                        assert(rest[i - 1] == arrivals[i]);
                    }
                }
            }
        }
    }
}

/// Round trip of a goal. A goal that arrives under a new id can be accepted,
/// executed and ended, each call taking effect; the goal then has the status
/// that the end status stands for; and the client that takes the server's
/// reply to its result request finds in it that status and the result that
/// the server sent.
pub proof fn lemma_round_trip<G, R>(
    goals: Registry<G>,
    goal_id: GoalId,
    goal: G,
    now: Time,
    result_request_id: RmwRequestId,
    result_status: GoalEndStatus,
    result: R,
)
    requires
        !goals.contains_key(goal_id@),
    ensures
        ({
            let arrive = ServerCall::ReceiveNewGoal { goal_id, goal };
            let accept = ServerCall::AcceptGoal { goal_id, now };
            let start = ServerCall::StartExecutingGoal { goal_id };
            let end = ServerCall::SendResultResponse { goal_id, result_status };
            let arrived = goals_after(goals, arrive);
            let accepted = goals_after(arrived, accept);
            let started = goals_after(accepted, start);
            let ended = goals_after(started, end);
            let reply = GetResultResponse { status: result_status.spec_status(), result };
            &&& takes_effect(goals, arrive)
            &&& takes_effect(arrived, accept)
            &&& takes_effect(accepted, start)
            &&& takes_effect(started, end)
            &&& ended[goal_id@].status == result_status.spec_status()
            &&& ended[goal_id@].goal == goal
            &&& ended[goal_id@].accepted_time == Some(now)
            &&& spec_receive_result(result_request_id, Some((result_request_id, reply)))
                == Polled::Ready((result_status.spec_status(), result))
        }),
{
}

} // verus!
