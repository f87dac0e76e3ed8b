use ros2_client::action::{
    Action, ActionClientQosPolicies, ActionServerQosPolicies, ActionTypes, GoalError,
};
use ros2_client::log::{Log, LogLevel};
use ros2_client::service::{AService, Service, ServiceMapping};
use rustdds::dds::{ReadError, WriteError};
use rustdds::policy::{Durability, History};
use rustdds::{QosPolicies, QosPolicyBuilder, Timestamp};

fn some_qos(depth: i32) -> QosPolicies {
    QosPolicyBuilder::new()
        .durability(Durability::Volatile)
        .history(History::KeepLast { depth })
        .build()
}

#[test]
fn action_keeps_its_type_names() {
    let action = Action::<i32, String, u8>::new(
        "turtlesim/action/RotateAbsolute_Goal".to_string(),
        "turtlesim/action/RotateAbsolute_Result".to_string(),
        "turtlesim/action/RotateAbsolute_Feedback".to_string(),
    );
    assert_eq!(action.goal_type_name(), "turtlesim/action/RotateAbsolute_Goal");
    assert_eq!(action.result_type_name(), "turtlesim/action/RotateAbsolute_Result");
    assert_eq!(action.feedback_type_name(), "turtlesim/action/RotateAbsolute_Feedback");
}

#[test]
fn action_accepts_empty_type_names() {
    let action = Action::<(), (), ()>::new(String::new(), String::new(), String::new());
    assert_eq!(action.goal_type_name(), "");
    assert_eq!(action.result_type_name(), "");
    assert_eq!(action.feedback_type_name(), "");
}

#[test]
fn service_keeps_its_type_names() {
    let service =
        AService::<i32, Vec<u8>>::new("AdditionRequest".to_string(), "AdditionResponse".to_string());
    assert_eq!(service.request_type_name(), "AdditionRequest");
    assert_eq!(service.response_type_name(), "AdditionResponse");
}

#[test]
fn service_mappings_are_three_and_distinct() {
    assert_ne!(ServiceMapping::Basic, ServiceMapping::Enhanced);
    assert_ne!(ServiceMapping::Enhanced, ServiceMapping::Cyclone);
    assert_ne!(ServiceMapping::Basic, ServiceMapping::Cyclone);
    let copy = ServiceMapping::Cyclone;
    assert_eq!(copy, ServiceMapping::Cyclone);
}

#[test]
fn goal_error_message_of_state_errors() {
    assert_eq!(GoalError::<()>::NoSuchGoal.message(), "No such goal");
    assert_eq!(GoalError::<()>::WrongGoalState.message(), "Wrong goal state");
}

#[test]
fn goal_error_message_of_dds_errors_carries_what_dds_says() {
    let read = GoalError::<()>::DDSReadError(ReadError::Internal { reason: "lost".to_string() });
    assert_eq!(read.message(), "DDS read error: Internal error: lost");
    let write = GoalError::<u8>::DDSWriteError(WriteError::WouldBlock { data: 3 });
    assert_eq!(write.message(), "DDS write error: Write operation timed out while blocking");
    let write = GoalError::<()>::DDSWriteError(WriteError::Serialization {
        reason: "too big".to_string(),
        data: (),
    });
    assert_eq!(write.message(), "DDS write error: Serialization error: too big");
}

#[test]
fn goal_error_from_dds_errors() {
    let from_read: GoalError<()> = ReadError::Poisoned { reason: "p".to_string() }.into();
    assert!(matches!(from_read, GoalError::DDSReadError(ReadError::Poisoned { .. })));
    let from_write: GoalError<u8> = WriteError::WouldBlock { data: 9u8 }.into();
    assert!(matches!(from_write, GoalError::DDSWriteError(WriteError::WouldBlock { data: 9 })));
}

#[test]
fn goal_error_converts_through_the_question_mark() {
    fn read() -> Result<u8, GoalError<()>> {
        let failed: Result<u8, ReadError> = Err(ReadError::Internal { reason: "r".to_string() });
        Ok(failed?)
    }
    fn write() -> Result<u8, GoalError<()>> {
        let failed: Result<u8, WriteError<()>> = Err(WriteError::Internal { reason: "w".to_string() });
        Ok(failed?)
    }
    assert!(matches!(read(), Err(GoalError::DDSReadError(_))));
    assert!(matches!(write(), Err(GoalError::DDSWriteError(_))));
}

#[test]
fn qos_policies_of_a_client_are_cloned_field_by_field() {
    let policies = ActionClientQosPolicies {
        goal_service: some_qos(1),
        result_service: some_qos(2),
        cancel_service: some_qos(3),
        feedback_subscription: some_qos(4),
        status_subscription: some_qos(5),
    };
    let copy = policies.clone();
    assert_eq!(copy.goal_service, some_qos(1));
    assert_eq!(copy.result_service, some_qos(2));
    assert_eq!(copy.cancel_service, some_qos(3));
    assert_eq!(copy.feedback_subscription, some_qos(4));
    assert_eq!(copy.status_subscription, some_qos(5));
}

#[test]
fn qos_policies_of_a_server_are_cloned_field_by_field() {
    let policies = ActionServerQosPolicies {
        goal_service: some_qos(1),
        result_service: some_qos(2),
        cancel_service: some_qos(3),
        feedback_publisher: some_qos(4),
        status_publisher: some_qos(5),
    };
    let copy = policies.clone();
    assert_eq!(copy.goal_service, some_qos(1));
    assert_eq!(copy.result_service, some_qos(2));
    assert_eq!(copy.cancel_service, some_qos(3));
    assert_eq!(copy.feedback_publisher, some_qos(4));
    assert_eq!(copy.status_publisher, some_qos(5));
}

#[test]
fn log_getters_give_the_fields() {
    let log = Log {
        timestamp: Timestamp::from_ticks(99),
        level: Log::WARN,
        name: "node".to_string(),
        msg: "low battery".to_string(),
        file: "power.rs".to_string(),
        function: "check".to_string(),
        line: 17,
    };
    assert_eq!(*log.get_timestamp(), Timestamp::from_ticks(99));
    assert_eq!(log.get_level(), 30);
    assert_eq!(log.name(), "node");
    assert_eq!(log.get_msg(), "low battery");
    assert_eq!(log.get_file(), "power.rs");
    assert_eq!(log.get_function(), "check");
    assert_eq!(log.get_line(), 17);
    let copy = log.clone();
    assert_eq!(copy.get_msg(), "low battery");
    assert_eq!(*copy.get_timestamp(), Timestamp::from_ticks(99));
}

#[test]
fn log_levels_have_their_numbers_and_rise_with_severity() {
    assert_eq!(Log::DEBUG, 10);
    assert_eq!(Log::INFO, 20);
    assert_eq!(Log::WARN, 30);
    assert_eq!(Log::ERROR, 40);
    assert_eq!(Log::FATAL, 50);
    assert_eq!(LogLevel::Debug.level(), 10);
    assert_eq!(LogLevel::Info.level(), 20);
    assert_eq!(LogLevel::Warn.level(), 30);
    assert_eq!(LogLevel::Error.level(), 40);
    assert_eq!(LogLevel::Fatal.level(), 50);
    assert!(LogLevel::Debug < LogLevel::Info);
    assert!(LogLevel::Info < LogLevel::Warn);
    assert!(LogLevel::Warn < LogLevel::Error);
    assert!(LogLevel::Error < LogLevel::Fatal);
}
