//! The types that most users of the crate need.

pub use crate::action::client::ActionClient;
pub use crate::action::goal::{
    CancelGoalRequest, CancelGoalResponse, CancelGoalResponseEnum, GoalId, GoalInfo, GoalStatus,
    GoalStatusArray, GoalStatusEnum,
};
pub use crate::action::server::AsyncActionServer;
pub use crate::action::{
    AcceptedGoalHandle, Action, ActionTypes, CancelHandle, ExecutingGoalHandle, GoalEndStatus,
    GoalError, GoalHandle, NewGoalHandle,
};
pub use crate::interfaces::builtin_interfaces::Time;
pub use crate::interfaces::unique_identifier_msgs::UUID;
pub use crate::log::{Log, LogLevel};
pub use crate::message::Message;
pub use crate::service::client::Polled;
pub use crate::service::request_id::RmwRequestId;
pub use crate::service::server::Reply;
pub use crate::service::{AService, Service, ServiceMapping};
