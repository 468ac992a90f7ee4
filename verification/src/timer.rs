use vstd::prelude::*;

verus! {

/// What the timer is told.
pub enum TimerInputMsg {
    NewElectionTimeout(std::time::Duration),
    NewHeartbeatTimeout(std::time::Duration),
    Stop,
}

/// What the timer reports.
#[derive(PartialEq, Eq, Structural, Copy, Clone, Debug)]
pub enum TimerOutputMsg {
    ElectionTimeTrigger,
    HeartbeatTimeTrigger,
}

} // verus!
