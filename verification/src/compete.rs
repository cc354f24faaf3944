//! Competition lifecycle with route selection: what is run on the robot at each point at
//! which the competition runtime hands over control.
//!
//! The runtime itself, and the robot's own code behind each hook, are asynchronous and lie
//! outside this library. What is decided here is the order of the calls.

use vstd::prelude::*;
use crate::Selector;

verus! {

/// A point at which the competition runtime starts a task of the program.
#[derive(Clone, Copy, Debug, PartialEq, Eq, Structural)]
pub enum CompetitionEvent {
    /// The robot became connected to a competition controller.
    Connect,
    /// The robot was disconnected from a competition controller.
    Disconnect,
    /// The robot is disabled.
    Disabled,
    /// The autonomous period began.
    Autonomous,
    /// The driver control period began.
    Driving,
}

/// One call that is made when the runtime starts a task.
#[derive(Clone, Copy, Debug, PartialEq, Eq, Structural)]
pub enum Hook {
    /// The robot's `connected` hook.
    Connected,
    /// The robot's `disconnected` hook.
    Disconnected,
    /// The robot's `disabled` hook.
    Disabled,
    /// The robot's `before_route` hook.
    BeforeRoute,
    /// The routine that the selector picks, run on the robot.
    Route,
    /// The robot's `after_route` hook.
    AfterRoute,
    /// The robot's `driver` hook.
    Driver,
}

/// The calls made for an event, in their order. The autonomous period runs the selected
/// route once, between the hooks before and after it; each other event runs the one hook
/// of the robot that is named after it.
pub open spec fn hooks_of(event: CompetitionEvent) -> Seq<Hook> {
    match event {
        CompetitionEvent::Connect => seq![Hook::Connected],
        CompetitionEvent::Disconnect => seq![Hook::Disconnected],
        CompetitionEvent::Disabled => seq![Hook::Disabled],
        CompetitionEvent::Autonomous => seq![Hook::BeforeRoute, Hook::Route, Hook::AfterRoute],
        CompetitionEvent::Driving => seq![Hook::Driver],
    }
}

/// The calls to make for an event, in their order.
pub fn hooks(event: CompetitionEvent) -> (calls: Vec<Hook>)
    ensures
        calls@ == hooks_of(event),
{
    let mut calls: Vec<Hook> = Vec::new();
    match event {
        CompetitionEvent::Connect => {
            calls.push(Hook::Connected);
        },
        CompetitionEvent::Disconnect => {
            calls.push(Hook::Disconnected);
        },
        CompetitionEvent::Disabled => {
            calls.push(Hook::Disabled);
        },
        CompetitionEvent::Autonomous => {
            calls.push(Hook::BeforeRoute);
            calls.push(Hook::Route);
            calls.push(Hook::AfterRoute);
        },
        CompetitionEvent::Driving => {
            calls.push(Hook::Driver);
        },
    }
    proof {
        assert(calls@ =~= hooks_of(event));
    }
    calls
}

/// The selected route runs in the autonomous period and at no other event. There it is
/// the second of three calls, and the only one of its kind: it runs once, right after
/// `before_route` and right before `after_route`.
pub proof fn lemma_route_runs_once_in_autonomous(event: CompetitionEvent)
    ensures
        hooks_of(event).contains(Hook::Route) <==> event == CompetitionEvent::Autonomous,
        forall|i: int|
            0 <= i < hooks_of(event).len() && #[trigger] hooks_of(event)[i] == Hook::Route ==> {
                &&& i == 1
                &&& hooks_of(event).len() == 3
                &&& hooks_of(event)[0] == Hook::BeforeRoute
                &&& hooks_of(event)[2] == Hook::AfterRoute
            },
{
    if event == CompetitionEvent::Autonomous {
        assert(hooks_of(event)[1] == Hook::Route);
    }
}

/// The robot and its selector, as the competition runtime holds them for the tasks it
/// starts.
pub struct SelectCompeteShared<R, S: Selector> {
    pub robot: R,
    pub selector: S,
}

impl<R, S: Selector> SelectCompeteShared<R, S> {
    /// Puts a robot and its selector together.
    pub fn new(robot: R, selector: S) -> (shared: Self)
        ensures
            shared.robot == robot,
            shared.selector == selector,
    {
        SelectCompeteShared { robot, selector }
    }

    /// The routine that the call `Hook::Route` runs on the robot: the one that the
    /// selector points at when the call is made.
    pub fn routine(&self) -> (routine: S::Routine)
        ensures
            call_ensures(S::pick, (&self.selector,), routine),
    {
        self.selector.pick()
    }
}

} // verus!
