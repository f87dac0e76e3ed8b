//! Goal identity, goal status and the messages of the cancel service.

use vstd::prelude::*;

use crate::interfaces::builtin_interfaces::Time;
use crate::interfaces::unique_identifier_msgs::UUID;
use crate::message::Message;

verus! {

/// The identifier of a goal.
pub type GoalId = UUID;

/// A goal's identifier together with the time at which it was accepted.
#[derive(Clone, Copy, Debug, PartialEq, Eq, Structural)]
pub struct GoalInfo {
    /// The goal's identifier.
    pub goal_id: GoalId,
    /// Time when the goal was accepted.
    pub stamp: Time,
}

impl Message for GoalInfo {

}

/// Where a goal stands in its life cycle.
#[derive(Clone, Copy, Debug, PartialEq, Eq, Structural)]
pub enum GoalStatusEnum {
    /// Not yet answered by the server; also the status of a new goal.
    Unknown,
    /// Accepted by the server and waiting to be executed.
    Accepted,
    /// Being executed.
    Executing,
    /// A cancel request was accepted; the goal is winding down.
    Canceling,
    /// Completed successfully.
    Succeeded,
    /// Ended by a cancel request.
    Canceled,
    /// Ended by the server on its own account.
    Aborted,
}

impl GoalStatusEnum {
    /// The number that stands for the status on the wire.
    pub open spec fn spec_code(self) -> i8 {
        match self {
            GoalStatusEnum::Unknown => 0,
            GoalStatusEnum::Accepted => 1,
            GoalStatusEnum::Executing => 2,
            GoalStatusEnum::Canceling => 3,
            GoalStatusEnum::Succeeded => 4,
            GoalStatusEnum::Canceled => 5,
            GoalStatusEnum::Aborted => 6,
        }
    }

    /// A status from which no further transition leads away.
    pub open spec fn spec_is_terminal(self) -> bool {
        self is Succeeded || self is Canceled || self is Aborted
    }

    /// A status in which a goal may still be asked to cancel.
    pub open spec fn spec_is_cancelable(self) -> bool {
        self is Accepted || self is Executing
    }

    /// The number that stands for the status on the wire.
    #[verifier::when_used_as_spec(spec_code)]
    pub fn code(self) -> (c: i8)
        ensures
            c == self.spec_code(),
    {
        match self {
            GoalStatusEnum::Unknown => 0,
            GoalStatusEnum::Accepted => 1,
            GoalStatusEnum::Executing => 2,
            GoalStatusEnum::Canceling => 3,
            GoalStatusEnum::Succeeded => 4,
            GoalStatusEnum::Canceled => 5,
            GoalStatusEnum::Aborted => 6,
        }
    }

    /// The status that a wire number stands for, if it stands for one.
    pub fn from_code(c: i8) -> (s: Option<GoalStatusEnum>)
        ensures
            s is Some <==> 0 <= c <= 6,
            s matches Some(status) ==> status.spec_code() == c,
    {
        match c {
            0 => Some(GoalStatusEnum::Unknown),
            1 => Some(GoalStatusEnum::Accepted),
            2 => Some(GoalStatusEnum::Executing),
            3 => Some(GoalStatusEnum::Canceling),
            4 => Some(GoalStatusEnum::Succeeded),
            5 => Some(GoalStatusEnum::Canceled),
            6 => Some(GoalStatusEnum::Aborted),
            _ => None,
        }
    }

    /// Whether the status is one of `Succeeded`, `Canceled`, `Aborted`.
    #[verifier::when_used_as_spec(spec_is_terminal)]
    pub fn is_terminal(self) -> (b: bool)
        ensures
            b == self.spec_is_terminal(),
    {
        match self {
            GoalStatusEnum::Succeeded | GoalStatusEnum::Canceled | GoalStatusEnum::Aborted => true,
            _ => false,
        }
    }

    /// Whether the status is `Accepted` or `Executing`.
    #[verifier::when_used_as_spec(spec_is_cancelable)]
    pub fn is_cancelable(self) -> (b: bool)
        ensures
            b == self.spec_is_cancelable(),
    {
        match self {
            GoalStatusEnum::Accepted | GoalStatusEnum::Executing => true,
            _ => false,
        }
    }
}

/// One goal's status as it is broadcast.
#[derive(Clone, Copy, Debug, PartialEq, Eq, Structural)]
pub struct GoalStatus {
    /// The goal's identifier and acceptance time.
    pub goal_info: GoalInfo,
    /// The goal's status.
    pub status: GoalStatusEnum,
}

impl Message for GoalStatus {

}

/// A collection of goal statuses: a snapshot of all goals a server knows.
#[derive(Clone, Debug)]
pub struct GoalStatusArray {
    /// The list of statuses.
    pub status_list: Vec<GoalStatus>,
}

impl Message for GoalStatusArray {

}

impl View for GoalStatusArray {
    type V = Seq<GoalStatus>;

    open spec fn view(&self) -> Seq<GoalStatus> {
        self.status_list@
    }
}

/// The first entry of `list` that speaks of goal `id`, if there is one.
pub open spec fn first_status_of(list: Seq<GoalStatus>, id: GoalId) -> Option<GoalStatus>
    decreases list.len(),
{
    if list.len() == 0 {
        None
    } else if list[0].goal_info.goal_id == id {
        Some(list[0])
    } else {
        first_status_of(list.drop_first(), id)
    }
}

impl GoalStatusArray {
    /// The first status in the list that speaks of the given goal.
    pub fn find(&self, goal_id: GoalId) -> (found: Option<GoalStatus>)
        ensures
            found == first_status_of(self@, goal_id),
    {
        let mut i: usize = 0;
        assert(self@.subrange(0, self@.len() as int) =~= self@);
        while i < self.status_list.len()
            invariant
                i <= self.status_list.len(),
                first_status_of(self@, goal_id) == first_status_of(
                    self@.subrange(i as int, self@.len() as int),
                    goal_id,
                ),
            decreases self.status_list.len() - i,
        {
            let ghost rest = self@.subrange(i as int, self@.len() as int);
            assert(rest[0] == self@[i as int]);
            assert(rest.drop_first() == self@.subrange(i + 1, self@.len() as int));
            if self.status_list[i].goal_info.goal_id == goal_id {
                return Some(self.status_list[i]);
            }
            i += 1;
        }
        None
    }
}

/// A request to cancel one goal or several.
///
/// - Goal id zero and stamp zero: all goals.
/// - Goal id zero, stamp not zero: all goals accepted before the stamp.
/// - Goal id not zero, stamp zero: the goal with that id.
/// - Neither zero: the goal with that id and all goals accepted before the
///   stamp.
#[derive(Clone, Copy, Debug, PartialEq, Eq, Structural)]
pub struct CancelGoalRequest {
    /// What to cancel.
    pub goal_info: GoalInfo,
}

impl Message for CancelGoalRequest {

}

/// What became of a cancel request.
#[derive(Clone, Copy, Debug, PartialEq, Eq, Structural)]
pub enum CancelGoalResponseEnum {
    /// No error: the request was accepted and at least one goal is now
    /// canceling.
    ErrorNone,
    /// The request was rejected: no goal is canceling on its account.
    Rejected,
    /// The requested goal does not exist.
    UnknownGoal,
    /// The requested goal has already reached a terminal status.
    GoalTerminated,
}

impl CancelGoalResponseEnum {
    /// The number that stands for the return code on the wire.
    pub open spec fn spec_code(self) -> i8 {
        match self {
            CancelGoalResponseEnum::ErrorNone => 0,
            CancelGoalResponseEnum::Rejected => 1,
            CancelGoalResponseEnum::UnknownGoal => 2,
            CancelGoalResponseEnum::GoalTerminated => 3,
        }
    }

    /// The number that stands for the return code on the wire.
    #[verifier::when_used_as_spec(spec_code)]
    pub fn code(self) -> (c: i8)
        ensures
            c == self.spec_code(),
    {
        match self {
            CancelGoalResponseEnum::ErrorNone => 0,
            CancelGoalResponseEnum::Rejected => 1,
            CancelGoalResponseEnum::UnknownGoal => 2,
            CancelGoalResponseEnum::GoalTerminated => 3,
        }
    }

    /// The return code that a wire number stands for, if it stands for one.
    pub fn from_code(c: i8) -> (r: Option<CancelGoalResponseEnum>)
        ensures
            r is Some <==> 0 <= c <= 3,
            r matches Some(code) ==> code.spec_code() == c,
    {
        match c {
            0 => Some(CancelGoalResponseEnum::ErrorNone),
            1 => Some(CancelGoalResponseEnum::Rejected),
            2 => Some(CancelGoalResponseEnum::UnknownGoal),
            3 => Some(CancelGoalResponseEnum::GoalTerminated),
            _ => None,
        }
    }
}

/// The server's answer to a [`CancelGoalRequest`].
#[derive(Clone, Debug)]
pub struct CancelGoalResponse {
    /// What the server decided.
    pub return_code: CancelGoalResponseEnum,
    /// The goals that are canceling on account of the request.
    pub goals_canceling: Vec<GoalInfo>,
}

impl Message for CancelGoalResponse {

}

} // verus!
