use std::collections::VecDeque;

use ros2_client::action::client::ActionClient;
use ros2_client::action::goal::{
    CancelGoalRequest, CancelGoalResponseEnum, GoalId, GoalInfo, GoalStatus, GoalStatusArray,
    GoalStatusEnum,
};
use ros2_client::action::server::{cancel_selects, AsyncActionServer};
use ros2_client::action::{
    Action, ExecutingGoalHandle, GetResultRequest, GetResultResponse, GoalEndStatus, GoalError,
    GoalHandle, SendGoalRequest, SendGoalResponse,
};
use ros2_client::interfaces::builtin_interfaces::Time;
use ros2_client::interfaces::unique_identifier_msgs::UUID;
use ros2_client::service::client::Polled;
use ros2_client::service::request_id::RmwRequestId;
use ros2_client::service::server::Reply;

type Fibonacci = Action<String, Vec<u32>, u32>;

fn req(n: i64) -> RmwRequestId {
    RmwRequestId::new(0xC0FFEE, n)
}

fn gid(n: u128) -> GoalId {
    UUID::from_u128(n)
}

fn goal_request(id: u128, goal: &str) -> SendGoalRequest<String> {
    SendGoalRequest { goal_id: gid(id), goal: goal.to_string() }
}

fn entry(id: u128, stamp: Time, status: GoalStatusEnum) -> GoalStatus {
    GoalStatus { goal_info: GoalInfo { goal_id: gid(id), stamp }, status }
}

fn cancel_request(id: u128, stamp: Time) -> CancelGoalRequest {
    CancelGoalRequest { goal_info: GoalInfo { goal_id: gid(id), stamp } }
}

/// Brings a goal through arrival, acceptance and the start of execution.
fn executing_goal(
    server: &mut AsyncActionServer<Fibonacci>,
    id: u128,
    accepted_at: Time,
) -> ExecutingGoalHandle<String> {
    let new = server.receive_new_goal(req(id as i64), goal_request(id, "goal")).unwrap();
    let (accepted, _, _) = server.accept_goal(new, accepted_at).unwrap();
    let (executing, _) = server.start_executing_goal(accepted).unwrap();
    executing
}

/// Sends a result as a server does: it looks for a request that was put
/// aside, and else takes result requests off the wire until the right one
/// comes.
fn deliver_result(
    server: &mut AsyncActionServer<Fibonacci>,
    handle: ExecutingGoalHandle<String>,
    wire: &mut VecDeque<(RmwRequestId, GetResultRequest)>,
    status: GoalEndStatus,
    result: Vec<u32>,
) -> Option<Result<(GoalStatusArray, Reply<GetResultResponse<Vec<u32>>>), GoalError<()>>> {
    let req_id = match server.waiting_result_request(handle) {
        Some(req_id) => req_id,
        None => loop {
            let (req_id, request) = wire.pop_front()?;
            if let Some(req_id) = server.receive_result_request(handle, req_id, request) {
                break req_id;
            }
        },
    };
    Some(server.send_result_response(handle, req_id, status, result))
}

#[test]
fn new_server_knows_no_goal() {
    let server = AsyncActionServer::<Fibonacci>::new();
    assert!(server.publish_statuses().status_list.is_empty());
}

#[test]
fn new_goal_is_entered_as_unknown_without_stamp() {
    let mut server = AsyncActionServer::<Fibonacci>::new();
    let handle = server.receive_new_goal(req(1), goal_request(7, "seven")).unwrap();
    assert_eq!(handle.goal_id(), gid(7));
    assert_eq!(server.get_new_goal(handle), Some(&"seven".to_string()));
    assert_eq!(
        server.publish_statuses().status_list,
        vec![entry(7, Time::zero(), GoalStatusEnum::Unknown)]
    );
}

#[test]
fn happy_path_goal_is_accepted_executed_and_succeeds() {
    let client = ActionClient::<Fibonacci>::new();
    let mut server = AsyncActionServer::<Fibonacci>::new();
    let now = Time::new(100, 5);

    let request = client.send_goal(gid(42), "order 10".to_string());
    let new = server.receive_new_goal(req(1), request).unwrap();
    assert_eq!(new.goal_id(), gid(42));

    let (accepted, statuses, reply) = server.accept_goal(new, now).unwrap();
    assert_eq!(statuses.status_list, vec![entry(42, now, GoalStatusEnum::Accepted)]);
    assert_eq!(reply.req_id, req(1));
    assert_eq!(reply.response, SendGoalResponse { accepted: true, stamp: now });
    assert!(matches!(
        client.receive_goal_response(req(1), Some((reply.req_id, reply.response))),
        Polled::Ready(SendGoalResponse { accepted: true, .. })
    ));

    let (executing, statuses) = server.start_executing_goal(accepted).unwrap();
    assert_eq!(executing.goal_id(), gid(42));
    assert_eq!(statuses.status_list, vec![entry(42, now, GoalStatusEnum::Executing)]);

    let feedback = server.publish_feedback(executing, 3).unwrap();
    assert_eq!(feedback.goal_id, gid(42));
    assert_eq!(feedback.feedback, 3);
    assert!(matches!(client.receive_feedback(gid(42), Some(feedback)), Polled::Ready(3)));

    let mut wire = VecDeque::new();
    wire.push_back((req(2), client.request_result(gid(42))));
    let (statuses, reply) =
        deliver_result(&mut server, executing, &mut wire, GoalEndStatus::Succeeded, vec![0, 1, 1])
            .unwrap()
            .unwrap();
    assert_eq!(statuses.status_list, vec![entry(42, now, GoalStatusEnum::Succeeded)]);
    assert_eq!(reply.req_id, req(2));
    match client.receive_result(req(2), Some((reply.req_id, reply.response))) {
        Polled::Ready((status, result)) => {
            assert_eq!(status, GoalStatusEnum::Succeeded);
            assert_eq!(result, vec![0, 1, 1]);
        }
        _ => panic!("the reply to the result request was not recognised"),
    }
}

#[test]
fn status_stream_of_the_happy_path_is_accepted_executing_succeeded() {
    let client = ActionClient::<Fibonacci>::new();
    let mut server = AsyncActionServer::<Fibonacci>::new();
    let mut broadcasts = Vec::new();
    let new = server.receive_new_goal(req(1), goal_request(42, "g")).unwrap();
    let (accepted, statuses, _) = server.accept_goal(new, Time::new(1, 0)).unwrap();
    broadcasts.push(statuses);
    let (executing, statuses) = server.start_executing_goal(accepted).unwrap();
    broadcasts.push(statuses);
    let (statuses, _) =
        server.send_result_response(executing, req(2), GoalEndStatus::Succeeded, vec![]).unwrap();
    broadcasts.push(statuses);

    let seen: Vec<GoalStatusEnum> = broadcasts
        .into_iter()
        .filter_map(|b| client.status_stream(gid(42), Ok(b)))
        .map(|s| s.unwrap().status)
        .collect();
    assert_eq!(
        seen,
        vec![GoalStatusEnum::Accepted, GoalStatusEnum::Executing, GoalStatusEnum::Succeeded]
    );
}

#[test]
fn rejection_answers_not_accepted_and_broadcasts_nothing() {
    let client = ActionClient::<Fibonacci>::new();
    let mut server = AsyncActionServer::<Fibonacci>::new();
    let now = Time::new(9, 9);
    let new = server.receive_new_goal(req(1), goal_request(5, "no")).unwrap();
    let reply = server.reject_goal(new, now).unwrap();
    assert_eq!(reply.req_id, req(1));
    assert_eq!(reply.response, SendGoalResponse { accepted: false, stamp: now });
    assert!(matches!(
        client.receive_goal_response(req(1), Some((reply.req_id, reply.response))),
        Polled::Ready(SendGoalResponse { accepted: false, .. })
    ));
    // The record stays, still unknown and without a stamp.
    assert_eq!(
        server.publish_statuses().status_list,
        vec![entry(5, Time::zero(), GoalStatusEnum::Unknown)]
    );
    // A rejected goal can be rejected again, and is never a cancel candidate.
    assert!(server.reject_goal(new, now).is_ok());
    let handle = server.receive_cancel_request(req(2), cancel_request(0, Time::zero()));
    assert!(handle.goals().is_empty());
}

#[test]
fn cancel_all_before_timestamp_is_strict() {
    let mut server = AsyncActionServer::<Fibonacci>::new();
    let (t1, t2, t3) = (Time::new(10, 0), Time::new(20, 0), Time::new(30, 0));
    executing_goal(&mut server, 3, t1);
    executing_goal(&mut server, 1, t2);
    executing_goal(&mut server, 2, t3);

    let handle = server.receive_cancel_request(req(50), cancel_request(0, t2));
    assert_eq!(handle.goals(), vec![gid(3)]);
    assert!(handle.contains_goal(&gid(3)));
    assert!(!handle.contains_goal(&gid(1)));
    assert!(!handle.contains_goal(&gid(2)));

    let (statuses, reply) = server.respond_to_cancel_requests(&handle, &handle.goals());
    assert_eq!(
        statuses.status_list,
        vec![
            entry(1, t2, GoalStatusEnum::Executing),
            entry(2, t3, GoalStatusEnum::Executing),
            entry(3, t1, GoalStatusEnum::Canceling),
        ]
    );
    assert_eq!(reply.req_id, req(50));
    assert_eq!(reply.response.return_code, CancelGoalResponseEnum::ErrorNone);
    assert_eq!(reply.response.goals_canceling, vec![GoalInfo { goal_id: gid(3), stamp: t1 }]);
}

#[test]
fn cancel_by_id_on_terminal_goal_is_rejected() {
    let mut server = AsyncActionServer::<Fibonacci>::new();
    let executing = executing_goal(&mut server, 8, Time::new(1, 0));
    server.send_result_response(executing, req(9), GoalEndStatus::Succeeded, vec![1]).unwrap();

    let handle = server.receive_cancel_request(req(10), cancel_request(8, Time::zero()));
    assert!(handle.goals().is_empty());
    assert!(!handle.contains_goal(&gid(8)));
    let (statuses, reply) = server.respond_to_cancel_requests(&handle, &handle.goals());
    assert_eq!(reply.req_id, req(10));
    assert_eq!(reply.response.return_code, CancelGoalResponseEnum::Rejected);
    assert!(reply.response.goals_canceling.is_empty());
    assert_eq!(statuses.status_list, vec![entry(8, Time::new(1, 0), GoalStatusEnum::Succeeded)]);
}

#[test]
fn duplicate_goal_id_gives_no_second_handle() {
    let mut server = AsyncActionServer::<Fibonacci>::new();
    let first = server.receive_new_goal(req(1), goal_request(4, "first"));
    let second = server.receive_new_goal(req(2), goal_request(4, "second"));
    assert!(first.is_some());
    assert!(second.is_none());
    assert_eq!(server.publish_statuses().status_list.len(), 1);
    assert_eq!(server.get_new_goal(first.unwrap()), Some(&"first".to_string()));
}

#[test]
fn duplicate_goal_id_is_refused_in_every_status() {
    let mut server = AsyncActionServer::<Fibonacci>::new();
    let executing = executing_goal(&mut server, 4, Time::new(1, 0));
    assert!(server.receive_new_goal(req(2), goal_request(4, "again")).is_none());
    server.send_result_response(executing, req(3), GoalEndStatus::Aborted, vec![]).unwrap();
    assert!(server.receive_new_goal(req(4), goal_request(4, "again")).is_none());
    assert_eq!(
        server.publish_statuses().status_list,
        vec![entry(4, Time::new(1, 0), GoalStatusEnum::Aborted)]
    );
}

#[test]
fn handles_of_a_sequence_of_arrivals_are_distinct() {
    let mut server = AsyncActionServer::<Fibonacci>::new();
    let arrivals = [5u128, 3, 5, 9, 3, 3, 1, 9, 5];
    let mut issued = Vec::new();
    for (n, id) in arrivals.iter().enumerate() {
        if let Some(handle) = server.receive_new_goal(req(n as i64), goal_request(*id, "x")) {
            issued.push(handle.goal_id());
        }
    }
    assert_eq!(issued, vec![gid(5), gid(3), gid(9), gid(1)]);
}

#[test]
fn result_request_that_arrives_first_is_answered_later() {
    let client = ActionClient::<Fibonacci>::new();
    let mut server = AsyncActionServer::<Fibonacci>::new();
    let mut wire = VecDeque::new();
    // The client asks for the result right after it has sent the goal.
    let request = client.send_goal(gid(6), "g".to_string());
    wire.push_back((req(77), client.request_result(gid(6))));

    let new = server.receive_new_goal(req(1), request).unwrap();
    let (accepted, _, _) = server.accept_goal(new, Time::new(1, 0)).unwrap();
    let (executing, _) = server.start_executing_goal(accepted).unwrap();
    assert_eq!(server.waiting_result_request(executing), None);

    let (_, reply) =
        deliver_result(&mut server, executing, &mut wire, GoalEndStatus::Canceled, vec![9])
            .unwrap()
            .unwrap();
    assert_eq!(reply.req_id, req(77));
    assert_eq!(reply.response.status, GoalStatusEnum::Canceled);
    assert_eq!(reply.response.result, vec![9]);
    assert!(wire.is_empty());
}

#[test]
fn result_request_for_another_goal_is_put_aside_and_found() {
    let mut server = AsyncActionServer::<Fibonacci>::new();
    let first = executing_goal(&mut server, 1, Time::new(1, 0));
    let second = executing_goal(&mut server, 2, Time::new(2, 0));
    let mut wire = VecDeque::new();
    wire.push_back((req(21), GetResultRequest { goal_id: gid(2) }));
    wire.push_back((req(11), GetResultRequest { goal_id: gid(1) }));
    wire.push_back((req(31), GetResultRequest { goal_id: gid(3) }));

    // Waiting for the first goal's request puts the second goal's aside.
    let (_, reply) =
        deliver_result(&mut server, first, &mut wire, GoalEndStatus::Succeeded, vec![1])
            .unwrap()
            .unwrap();
    assert_eq!(reply.req_id, req(11));
    assert_eq!(wire.len(), 1);
    assert_eq!(server.waiting_result_request(second), Some(req(21)));
    assert_eq!(server.waiting_result_request(first), None);

    // The second goal's result goes out at once, with nothing taken off the wire.
    let (_, reply) =
        deliver_result(&mut server, second, &mut wire, GoalEndStatus::Aborted, vec![2])
            .unwrap()
            .unwrap();
    assert_eq!(reply.req_id, req(21));
    assert_eq!(reply.response.status, GoalStatusEnum::Aborted);
    assert_eq!(wire.len(), 1);
    assert_eq!(server.waiting_result_request(second), None);
}

#[test]
fn later_result_request_for_a_goal_replaces_the_earlier_one() {
    let mut server = AsyncActionServer::<Fibonacci>::new();
    let first = executing_goal(&mut server, 1, Time::new(1, 0));
    let second = executing_goal(&mut server, 2, Time::new(2, 0));
    assert_eq!(
        server.receive_result_request(first, req(5), GetResultRequest { goal_id: gid(2) }),
        None
    );
    assert_eq!(
        server.receive_result_request(first, req(6), GetResultRequest { goal_id: gid(2) }),
        None
    );
    assert_eq!(server.waiting_result_request(second), Some(req(6)));
    assert_eq!(
        server.receive_result_request(first, req(7), GetResultRequest { goal_id: gid(1) }),
        Some(req(7))
    );
    assert_eq!(server.waiting_result_request(first), None);
}

#[test]
fn server_waits_while_no_result_request_has_come() {
    let mut server = AsyncActionServer::<Fibonacci>::new();
    let handle = executing_goal(&mut server, 1, Time::new(1, 0));
    let mut wire = VecDeque::new();
    wire.push_back((req(9), GetResultRequest { goal_id: gid(2) }));
    assert!(
        deliver_result(&mut server, handle, &mut wire, GoalEndStatus::Succeeded, vec![]).is_none()
    );
    // Nothing was decided: the goal is still executing.
    assert_eq!(
        server.publish_statuses().status_list,
        vec![entry(1, Time::new(1, 0), GoalStatusEnum::Executing)]
    );
}

#[test]
fn accept_needs_an_unknown_goal() {
    let mut server = AsyncActionServer::<Fibonacci>::new();
    let new = server.receive_new_goal(req(1), goal_request(1, "g")).unwrap();
    assert!(server.accept_goal(new, Time::new(1, 0)).is_ok());
    let again = server.accept_goal(new, Time::new(2, 0));
    assert!(matches!(again.err().unwrap(), GoalError::WrongGoalState));
    // The stamp of the first acceptance stays.
    assert_eq!(
        server.publish_statuses().status_list,
        vec![entry(1, Time::new(1, 0), GoalStatusEnum::Accepted)]
    );
    assert!(matches!(server.reject_goal(new, Time::new(3, 0)), Err(GoalError::WrongGoalState)));
}

#[test]
fn handles_of_another_server_name_no_goal() {
    let mut elsewhere = AsyncActionServer::<Fibonacci>::new();
    let new = elsewhere.receive_new_goal(req(1), goal_request(1, "g")).unwrap();
    let (accepted, _, _) = elsewhere.accept_goal(new, Time::new(1, 0)).unwrap();
    let (executing, _) = elsewhere.start_executing_goal(accepted).unwrap();

    let mut server = AsyncActionServer::<Fibonacci>::new();
    assert_eq!(server.get_new_goal(new), None);
    assert!(matches!(
        server.accept_goal(new, Time::new(1, 0)).err().unwrap(),
        GoalError::NoSuchGoal
    ));
    assert!(matches!(server.reject_goal(new, Time::new(1, 0)), Err(GoalError::NoSuchGoal)));
    assert!(matches!(
        server.start_executing_goal(accepted).err().unwrap(),
        GoalError::NoSuchGoal
    ));
    assert!(matches!(server.publish_feedback(executing, 1), Err(GoalError::NoSuchGoal)));
    assert!(matches!(
        server.send_result_response(executing, req(2), GoalEndStatus::Succeeded, vec![]),
        Err(GoalError::NoSuchGoal)
    ));
    assert!(matches!(server.abort_executing_goal(executing), Err(GoalError::NoSuchGoal)));
    assert!(matches!(server.abort_accepted_goal(accepted), Err(GoalError::NoSuchGoal)));
    assert!(server.publish_statuses().status_list.is_empty());
}

#[test]
fn start_executing_needs_an_accepted_goal() {
    let mut server = AsyncActionServer::<Fibonacci>::new();
    let new = server.receive_new_goal(req(1), goal_request(1, "g")).unwrap();
    let (accepted, _, _) = server.accept_goal(new, Time::new(1, 0)).unwrap();
    assert!(server.start_executing_goal(accepted).is_ok());
    assert!(matches!(
        server.start_executing_goal(accepted).err().unwrap(),
        GoalError::WrongGoalState
    ));
}

#[test]
fn feedback_needs_an_executing_goal() {
    let mut server = AsyncActionServer::<Fibonacci>::new();
    let executing = executing_goal(&mut server, 1, Time::new(1, 0));
    assert!(server.publish_feedback(executing, 1).is_ok());
    server.abort_executing_goal(executing).unwrap();
    assert!(matches!(server.publish_feedback(executing, 2), Err(GoalError::WrongGoalState)));
}

#[test]
fn result_can_be_sent_from_accepted_executing_and_canceling() {
    // From Accepted, with the handle that a later start would have given.
    let mut server = AsyncActionServer::<Fibonacci>::new();
    let mut twin = AsyncActionServer::<Fibonacci>::new();
    let handle = executing_goal(&mut twin, 1, Time::new(1, 0));
    let new = server.receive_new_goal(req(1), goal_request(1, "g")).unwrap();
    server.accept_goal(new, Time::new(1, 0)).unwrap();
    let (statuses, _) =
        server.send_result_response(handle, req(2), GoalEndStatus::Succeeded, vec![]).unwrap();
    assert_eq!(statuses.status_list, vec![entry(1, Time::new(1, 0), GoalStatusEnum::Succeeded)]);

    // From Canceling.
    let mut server = AsyncActionServer::<Fibonacci>::new();
    let handle = executing_goal(&mut server, 1, Time::new(1, 0));
    let cancel = server.receive_cancel_request(req(3), cancel_request(1, Time::zero()));
    server.respond_to_cancel_requests(&cancel, &cancel.goals());
    let (statuses, reply) =
        server.send_result_response(handle, req(4), GoalEndStatus::Canceled, vec![7]).unwrap();
    assert_eq!(statuses.status_list, vec![entry(1, Time::new(1, 0), GoalStatusEnum::Canceled)]);
    assert_eq!(reply.response.status, GoalStatusEnum::Canceled);
}

#[test]
fn result_cannot_be_sent_twice_nor_for_an_unknown_status() {
    let mut server = AsyncActionServer::<Fibonacci>::new();
    let handle = executing_goal(&mut server, 1, Time::new(1, 0));
    server.send_result_response(handle, req(2), GoalEndStatus::Succeeded, vec![]).unwrap();
    for end in [GoalEndStatus::Succeeded, GoalEndStatus::Aborted, GoalEndStatus::Canceled] {
        assert!(matches!(
            server.send_result_response(handle, req(3), end, vec![]),
            Err(GoalError::WrongGoalState)
        ));
    }
    assert_eq!(
        server.publish_statuses().status_list,
        vec![entry(1, Time::new(1, 0), GoalStatusEnum::Succeeded)]
    );

    let mut server = AsyncActionServer::<Fibonacci>::new();
    server.receive_new_goal(req(1), goal_request(1, "g")).unwrap();
    assert!(matches!(
        server.send_result_response(handle, req(3), GoalEndStatus::Aborted, vec![]),
        Err(GoalError::WrongGoalState)
    ));
}

#[test]
fn abort_moves_accepted_and_executing_goals_to_aborted() {
    let mut server = AsyncActionServer::<Fibonacci>::new();
    let new = server.receive_new_goal(req(1), goal_request(1, "g")).unwrap();
    let (accepted, _, _) = server.accept_goal(new, Time::new(1, 0)).unwrap();
    let statuses = server.abort_accepted_goal(accepted).unwrap();
    assert_eq!(statuses.status_list, vec![entry(1, Time::new(1, 0), GoalStatusEnum::Aborted)]);
    assert!(matches!(server.abort_accepted_goal(accepted), Err(GoalError::WrongGoalState)));

    let executing = executing_goal(&mut server, 2, Time::new(2, 0));
    let statuses = server.abort_executing_goal(executing).unwrap();
    assert_eq!(
        statuses.status_list,
        vec![
            entry(1, Time::new(1, 0), GoalStatusEnum::Aborted),
            entry(2, Time::new(2, 0), GoalStatusEnum::Aborted),
        ]
    );
    assert!(matches!(server.abort_executing_goal(executing), Err(GoalError::WrongGoalState)));
}

#[test]
fn abort_refuses_a_canceling_goal() {
    let mut server = AsyncActionServer::<Fibonacci>::new();
    let executing = executing_goal(&mut server, 1, Time::new(1, 0));
    server.respond_to_cancel_requests(
        &server.receive_cancel_request(req(2), cancel_request(0, Time::zero())),
        &vec![gid(1)],
    );
    assert!(matches!(server.abort_executing_goal(executing), Err(GoalError::WrongGoalState)));
}

#[test]
fn status_broadcast_lists_every_goal_once_in_id_order() {
    let mut server = AsyncActionServer::<Fibonacci>::new();
    let ids = [900u128, 2, 40, 1 << 100, 7, u128::MAX, 0];
    for (n, id) in ids.iter().enumerate() {
        server.receive_new_goal(req(n as i64), goal_request(*id, "g")).unwrap();
    }
    let listed: Vec<u128> = server
        .publish_statuses()
        .status_list
        .iter()
        .map(|s| s.goal_info.goal_id.as_u128())
        .collect();
    assert_eq!(listed, vec![0, 2, 7, 40, 900, 1 << 100, u128::MAX]);
}

#[test]
fn status_broadcast_follows_every_change() {
    let mut server = AsyncActionServer::<Fibonacci>::new();
    let (t1, t2) = (Time::new(1, 0), Time::new(2, 0));
    let a = server.receive_new_goal(req(1), goal_request(10, "a")).unwrap();
    let b = server.receive_new_goal(req(2), goal_request(20, "b")).unwrap();
    let (a, statuses, _) = server.accept_goal(a, t1).unwrap();
    assert_eq!(
        statuses.status_list,
        vec![entry(10, t1, GoalStatusEnum::Accepted), entry(20, Time::zero(), GoalStatusEnum::Unknown)]
    );
    let (b, statuses, _) = server.accept_goal(b, t2).unwrap();
    assert_eq!(
        statuses.status_list,
        vec![entry(10, t1, GoalStatusEnum::Accepted), entry(20, t2, GoalStatusEnum::Accepted)]
    );
    let (_, statuses) = server.start_executing_goal(b).unwrap();
    assert_eq!(
        statuses.status_list,
        vec![entry(10, t1, GoalStatusEnum::Accepted), entry(20, t2, GoalStatusEnum::Executing)]
    );
    let statuses = server.abort_accepted_goal(a).unwrap();
    assert_eq!(
        statuses.status_list,
        vec![entry(10, t1, GoalStatusEnum::Aborted), entry(20, t2, GoalStatusEnum::Executing)]
    );
}

#[test]
fn cancel_selects_follows_the_four_cases() {
    let t = Time::new(50, 0);
    let earlier = Some(Time::new(49, 999_999_999));
    let same = Some(t);
    let later = Some(Time::new(50, 1));
    let zero_id = gid(0);
    let zero = Time::zero();
    let id = gid(5);
    let other = gid(6);

    // No id, no stamp: every goal.
    let all = GoalInfo { goal_id: zero_id, stamp: zero };
    assert!(cancel_selects(&all, id, None));
    assert!(cancel_selects(&all, other, later));

    // No id, a stamp: the goals accepted strictly before it.
    let before = GoalInfo { goal_id: zero_id, stamp: t };
    assert!(cancel_selects(&before, id, earlier));
    assert!(!cancel_selects(&before, id, same));
    assert!(!cancel_selects(&before, id, later));
    assert!(!cancel_selects(&before, id, None));

    // An id, no stamp: that goal.
    let one = GoalInfo { goal_id: id, stamp: zero };
    assert!(cancel_selects(&one, id, None));
    assert!(cancel_selects(&one, id, later));
    assert!(!cancel_selects(&one, other, earlier));

    // An id and a stamp: that goal, and the goals accepted strictly before.
    let both = GoalInfo { goal_id: id, stamp: t };
    assert!(cancel_selects(&both, id, later));
    assert!(cancel_selects(&both, id, None));
    assert!(cancel_selects(&both, other, earlier));
    assert!(!cancel_selects(&both, other, same));
    assert!(!cancel_selects(&both, other, later));
    assert!(!cancel_selects(&both, other, None));
}

/// A registry with one goal in each status: goal n is in the status with code
/// n, and the accepted ones were accepted at second 10 * n.
fn server_with_each_status() -> AsyncActionServer<Fibonacci> {
    let mut server = AsyncActionServer::<Fibonacci>::new();
    server.receive_new_goal(req(0), goal_request(100, "unknown")).unwrap();
    let new = server.receive_new_goal(req(1), goal_request(1, "accepted")).unwrap();
    server.accept_goal(new, Time::new(10, 0)).unwrap();
    executing_goal(&mut server, 2, Time::new(20, 0));
    executing_goal(&mut server, 3, Time::new(30, 0));
    let cancel = server.receive_cancel_request(req(90), cancel_request(3, Time::zero()));
    server.respond_to_cancel_requests(&cancel, &vec![gid(3)]);
    let h = executing_goal(&mut server, 4, Time::new(40, 0));
    server.send_result_response(h, req(91), GoalEndStatus::Succeeded, vec![]).unwrap();
    let h = executing_goal(&mut server, 5, Time::new(50, 0));
    server.send_result_response(h, req(92), GoalEndStatus::Canceled, vec![]).unwrap();
    let h = executing_goal(&mut server, 6, Time::new(60, 0));
    server.abort_executing_goal(h).unwrap();
    server
}

#[test]
fn registry_with_each_status_is_as_described() {
    let server = server_with_each_status();
    assert_eq!(
        server.publish_statuses().status_list,
        vec![
            entry(1, Time::new(10, 0), GoalStatusEnum::Accepted),
            entry(2, Time::new(20, 0), GoalStatusEnum::Executing),
            entry(3, Time::new(30, 0), GoalStatusEnum::Canceling),
            entry(4, Time::new(40, 0), GoalStatusEnum::Succeeded),
            entry(5, Time::new(50, 0), GoalStatusEnum::Canceled),
            entry(6, Time::new(60, 0), GoalStatusEnum::Aborted),
            entry(100, Time::zero(), GoalStatusEnum::Unknown),
        ]
    );
}

#[test]
fn cancel_all_names_the_accepted_and_executing_goals_only() {
    let server = server_with_each_status();
    let handle = server.receive_cancel_request(req(1), cancel_request(0, Time::zero()));
    assert_eq!(handle.goals(), vec![gid(1), gid(2)]);
}

#[test]
fn cancel_before_names_eligible_goals_accepted_strictly_before() {
    let server = server_with_each_status();
    let at = |sec: i32| {
        server.receive_cancel_request(req(1), cancel_request(0, Time::new(sec, 0))).goals()
    };
    assert_eq!(at(10), vec![]);
    assert_eq!(at(11), vec![gid(1)]);
    assert_eq!(at(20), vec![gid(1)]);
    assert_eq!(at(1000), vec![gid(1), gid(2)]);
    assert_eq!(
        server.receive_cancel_request(req(1), cancel_request(0, Time::new(10, 1))).goals(),
        vec![gid(1)]
    );
}

#[test]
fn cancel_by_id_names_that_goal_if_eligible() {
    let server = server_with_each_status();
    let of = |id: u128| server.receive_cancel_request(req(1), cancel_request(id, Time::zero())).goals();
    assert_eq!(of(1), vec![gid(1)]);
    assert_eq!(of(2), vec![gid(2)]);
    assert_eq!(of(3), vec![]);
    assert_eq!(of(4), vec![]);
    assert_eq!(of(5), vec![]);
    assert_eq!(of(6), vec![]);
    assert_eq!(of(100), vec![]);
    assert_eq!(of(12345), vec![]);
}

#[test]
fn cancel_by_id_and_stamp_names_the_goal_and_the_earlier_ones() {
    let server = server_with_each_status();
    let of = |id: u128, sec: i32| {
        server.receive_cancel_request(req(1), cancel_request(id, Time::new(sec, 0))).goals()
    };
    assert_eq!(of(2, 15), vec![gid(1), gid(2)]);
    assert_eq!(of(2, 10), vec![gid(2)]);
    assert_eq!(of(1, 10), vec![gid(1)]);
    assert_eq!(of(4, 15), vec![gid(1)]);
    assert_eq!(of(4, 5), vec![]);
    assert_eq!(of(777, 1000), vec![gid(1), gid(2)]);
}

#[test]
fn cancel_handle_keeps_the_request_id() {
    let server = server_with_each_status();
    let handle = server.receive_cancel_request(req(33), cancel_request(0, Time::zero()));
    let mut answering = server_with_each_status();
    let (_, reply) = answering.respond_to_cancel_requests(&handle, &vec![]);
    assert_eq!(reply.req_id, req(33));
}

#[test]
fn respond_to_cancel_passes_over_unknown_and_unaccepted_goals() {
    let mut server = server_with_each_status();
    let handle = server.receive_cancel_request(req(1), cancel_request(0, Time::zero()));
    let (statuses, reply) =
        server.respond_to_cancel_requests(&handle, &vec![gid(100), gid(555), gid(2)]);
    assert_eq!(reply.response.return_code, CancelGoalResponseEnum::ErrorNone);
    assert_eq!(
        reply.response.goals_canceling,
        vec![GoalInfo { goal_id: gid(2), stamp: Time::new(20, 0) }]
    );
    assert_eq!(
        statuses.status_list,
        vec![
            entry(1, Time::new(10, 0), GoalStatusEnum::Accepted),
            entry(2, Time::new(20, 0), GoalStatusEnum::Canceling),
            entry(3, Time::new(30, 0), GoalStatusEnum::Canceling),
            entry(4, Time::new(40, 0), GoalStatusEnum::Succeeded),
            entry(5, Time::new(50, 0), GoalStatusEnum::Canceled),
            entry(6, Time::new(60, 0), GoalStatusEnum::Aborted),
            entry(100, Time::zero(), GoalStatusEnum::Unknown),
        ]
    );
}

#[test]
fn respond_to_cancel_with_nothing_to_cancel_is_rejected_and_still_broadcasts() {
    let mut server = server_with_each_status();
    let before = server.publish_statuses().status_list;
    let handle = server.receive_cancel_request(req(1), cancel_request(0, Time::zero()));
    let (statuses, reply) = server.respond_to_cancel_requests(&handle, &vec![gid(100), gid(999)]);
    assert_eq!(reply.response.return_code, CancelGoalResponseEnum::Rejected);
    assert!(reply.response.goals_canceling.is_empty());
    assert_eq!(statuses.status_list, before);
}

#[test]
fn respond_to_cancel_lists_goals_in_the_order_given_and_as_often() {
    let mut server = server_with_each_status();
    let handle = server.receive_cancel_request(req(1), cancel_request(0, Time::zero()));
    let (_, reply) = server.respond_to_cancel_requests(&handle, &vec![gid(2), gid(1), gid(2)]);
    assert_eq!(
        reply.response.goals_canceling,
        vec![
            GoalInfo { goal_id: gid(2), stamp: Time::new(20, 0) },
            GoalInfo { goal_id: gid(1), stamp: Time::new(10, 0) },
            GoalInfo { goal_id: gid(2), stamp: Time::new(20, 0) },
        ]
    );
}

#[test]
fn respond_to_cancel_passes_over_goals_that_have_ended() {
    // The caller may name goals that no cancel handle would list. An ended
    // goal stays as it ended and is not listed in the reply.
    for ended in [4u128, 5, 6] {
        let mut server = server_with_each_status();
        let before = server.publish_statuses().status_list;
        let handle = server.receive_cancel_request(req(1), cancel_request(0, Time::zero()));
        let (statuses, reply) = server.respond_to_cancel_requests(&handle, &vec![gid(ended)]);
        assert_eq!(reply.response.return_code, CancelGoalResponseEnum::Rejected);
        assert!(reply.response.goals_canceling.is_empty());
        assert_eq!(statuses.status_list, before);
    }
}

#[test]
fn respond_to_cancel_passes_over_a_goal_that_is_canceling_already() {
    let mut server = server_with_each_status();
    let before = server.publish_statuses().status_list;
    let handle = server.receive_cancel_request(req(1), cancel_request(0, Time::zero()));
    let (statuses, reply) = server.respond_to_cancel_requests(&handle, &vec![gid(3)]);
    assert_eq!(reply.response.return_code, CancelGoalResponseEnum::Rejected);
    assert!(reply.response.goals_canceling.is_empty());
    assert_eq!(statuses.status_list, before);
}

#[test]
fn respond_to_cancel_lists_only_the_cancelable_goals_among_those_named() {
    let mut server = server_with_each_status();
    let handle = server.receive_cancel_request(req(1), cancel_request(0, Time::zero()));
    let named: Vec<GoalId> = [100u128, 6, 2, 5, 3, 1, 4, 999].iter().map(|n| gid(*n)).collect();
    let (statuses, reply) = server.respond_to_cancel_requests(&handle, &named);
    assert_eq!(reply.response.return_code, CancelGoalResponseEnum::ErrorNone);
    assert_eq!(
        reply.response.goals_canceling,
        vec![
            GoalInfo { goal_id: gid(2), stamp: Time::new(20, 0) },
            GoalInfo { goal_id: gid(1), stamp: Time::new(10, 0) },
        ]
    );
    assert_eq!(
        statuses.status_list,
        vec![
            entry(1, Time::new(10, 0), GoalStatusEnum::Canceling),
            entry(2, Time::new(20, 0), GoalStatusEnum::Canceling),
            entry(3, Time::new(30, 0), GoalStatusEnum::Canceling),
            entry(4, Time::new(40, 0), GoalStatusEnum::Succeeded),
            entry(5, Time::new(50, 0), GoalStatusEnum::Canceled),
            entry(6, Time::new(60, 0), GoalStatusEnum::Aborted),
            entry(100, Time::zero(), GoalStatusEnum::Unknown),
        ]
    );
}

#[test]
fn goals_of_a_cancel_handle_are_all_canceled_when_answered() {
    let mut server = server_with_each_status();
    let handle = server.receive_cancel_request(req(1), cancel_request(0, Time::zero()));
    let (_, reply) = server.respond_to_cancel_requests(&handle, &handle.goals());
    let canceled: Vec<GoalId> = reply.response.goals_canceling.iter().map(|i| i.goal_id).collect();
    assert_eq!(canceled, handle.goals());
    // Answered once more, the same goals are canceling already.
    let (_, reply) = server.respond_to_cancel_requests(&handle, &handle.goals());
    assert_eq!(reply.response.return_code, CancelGoalResponseEnum::Rejected);
}

#[test]
fn answered_result_request_waits_no_longer() {
    let mut server = AsyncActionServer::<Fibonacci>::new();
    let first = executing_goal(&mut server, 1, Time::new(1, 0));
    let second = executing_goal(&mut server, 2, Time::new(2, 0));
    let third = executing_goal(&mut server, 3, Time::new(3, 0));
    server.receive_result_request(first, req(21), GetResultRequest { goal_id: gid(2) });
    server.receive_result_request(first, req(31), GetResultRequest { goal_id: gid(3) });
    assert_eq!(server.waiting_result_request(second), Some(req(21)));

    let (_, reply) =
        server.send_result_response(second, req(21), GoalEndStatus::Succeeded, vec![]).unwrap();
    assert_eq!(reply.req_id, req(21));
    assert_eq!(server.waiting_result_request(second), None);
    // The request of the other goal still waits.
    assert_eq!(server.waiting_result_request(third), Some(req(31)));
}

#[test]
fn result_request_still_waits_when_the_result_cannot_be_sent() {
    let mut server = AsyncActionServer::<Fibonacci>::new();
    let first = executing_goal(&mut server, 1, Time::new(1, 0));
    let second = executing_goal(&mut server, 2, Time::new(2, 0));
    server.receive_result_request(first, req(21), GetResultRequest { goal_id: gid(2) });
    server.abort_executing_goal(second).unwrap();
    assert!(matches!(
        server.send_result_response(second, req(21), GoalEndStatus::Aborted, vec![]),
        Err(GoalError::WrongGoalState)
    ));
    assert_eq!(server.waiting_result_request(second), Some(req(21)));
}

#[test]
fn canceling_goal_is_no_cancel_candidate() {
    let mut server = AsyncActionServer::<Fibonacci>::new();
    executing_goal(&mut server, 1, Time::new(1, 0));
    let handle = server.receive_cancel_request(req(1), cancel_request(1, Time::zero()));
    assert_eq!(handle.goals(), vec![gid(1)]);
    server.respond_to_cancel_requests(&handle, &handle.goals());
    let handle = server.receive_cancel_request(req(2), cancel_request(1, Time::zero()));
    assert!(handle.goals().is_empty());
}

#[test]
fn end_status_stands_for_a_terminal_goal_status() {
    assert_eq!(GoalEndStatus::Succeeded.status(), GoalStatusEnum::Succeeded);
    assert_eq!(GoalEndStatus::Aborted.status(), GoalStatusEnum::Aborted);
    assert_eq!(GoalEndStatus::Canceled.status(), GoalStatusEnum::Canceled);
    for end in [GoalEndStatus::Succeeded, GoalEndStatus::Aborted, GoalEndStatus::Canceled] {
        assert!(end.status().is_terminal());
    }
}

#[test]
fn handles_are_plain_values() {
    let mut server = AsyncActionServer::<Fibonacci>::new();
    let new = server.receive_new_goal(req(1), goal_request(1, "g")).unwrap();
    let copy = new;
    assert_eq!(new, copy.clone());
    drop(copy);
    // Dropping a handle changes nothing in the registry.
    assert!(server.accept_goal(new, Time::new(1, 0)).is_ok());
}
