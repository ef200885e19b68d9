//! Enumerations of the controller protocol.
use vstd::prelude::*;

verus! {

/// The kind of an instance.
#[derive(Clone, Copy, Debug, PartialEq, Eq, Structural)]
pub enum Type {
    Container,
}

/// The wire number of a `Type`.
pub open spec fn type_number(t: Type) -> i32 {
    match t {
        Type::Container => 0,
    }
}

impl Type {
    /// The wire number of the type.
    pub fn number(&self) -> (n: i32)
        ensures
            n == type_number(*self),
    {
        match self {
            Type::Container => 0,
        }
    }
}

/// The life-cycle state of an instance.
#[derive(Clone, Copy, Debug, PartialEq, Eq, Structural)]
pub enum InstanceState {
    Running,
    Starting,
    Stopped,
    Stopping,
    Destroying,
    Terminated,
    Crashed,
    Failed,
    Scheduling,
    Scheduled,
}

/// The wire number of an `InstanceState`.
pub open spec fn state_number(s: InstanceState) -> i32 {
    match s {
        InstanceState::Running => 0,
        InstanceState::Starting => 1,
        InstanceState::Stopped => 2,
        InstanceState::Stopping => 3,
        InstanceState::Destroying => 4,
        InstanceState::Terminated => 5,
        InstanceState::Crashed => 6,
        InstanceState::Failed => 7,
        InstanceState::Scheduling => 8,
        InstanceState::Scheduled => 9,
    }
}

/// The state that a wire number stands for, if any.
pub open spec fn state_of_number(n: i32) -> Option<InstanceState> {
    if n == 0 {
        Some(InstanceState::Running)
    } else if n == 1 {
        Some(InstanceState::Starting)
    } else if n == 2 {
        Some(InstanceState::Stopped)
    } else if n == 3 {
        Some(InstanceState::Stopping)
    } else if n == 4 {
        Some(InstanceState::Destroying)
    } else if n == 5 {
        Some(InstanceState::Terminated)
    } else if n == 6 {
        Some(InstanceState::Crashed)
    } else if n == 7 {
        Some(InstanceState::Failed)
    } else if n == 8 {
        Some(InstanceState::Scheduling)
    } else if n == 9 {
        Some(InstanceState::Scheduled)
    } else {
        None
    }
}

impl InstanceState {
    /// The wire number of the state.
    pub fn number(&self) -> (n: i32)
        ensures
            n == state_number(*self),
    {
        match self {
            InstanceState::Running => 0,
            InstanceState::Starting => 1,
            InstanceState::Stopped => 2,
            InstanceState::Stopping => 3,
            InstanceState::Destroying => 4,
            InstanceState::Terminated => 5,
            InstanceState::Crashed => 6,
            InstanceState::Failed => 7,
            InstanceState::Scheduling => 8,
            InstanceState::Scheduled => 9,
        }
    }

    /// Decodes a wire number; `None` for a number that names no state.
    pub fn from_i32(n: i32) -> (r: Option<InstanceState>)
        ensures
            r == state_of_number(n),
    {
        if n == 0 {
            Some(InstanceState::Running)
        } else if n == 1 {
            Some(InstanceState::Starting)
        } else if n == 2 {
            Some(InstanceState::Stopped)
        } else if n == 3 {
            Some(InstanceState::Stopping)
        } else if n == 4 {
            Some(InstanceState::Destroying)
        } else if n == 5 {
            Some(InstanceState::Terminated)
        } else if n == 6 {
            Some(InstanceState::Crashed)
        } else if n == 7 {
            Some(InstanceState::Failed)
        } else if n == 8 {
            Some(InstanceState::Scheduling)
        } else if n == 9 {
            Some(InstanceState::Scheduled)
        } else {
            None
        }
    }
}

/// The wire numbers are those that the protocol assigns, in the order it
/// declares the states: `RUNNING = 0`, `STARTING = 1`, `STOPPED = 2`,
/// `STOPPING = 3`, `DESTROYING = 4`, `TERMINATED = 5`, `CRASHED = 6`,
/// `FAILED = 7`, `SCHEDULING = 8`, `SCHEDULED = 9`. Each number from 0 to 9
/// names the state declared at that position and no other number names a state;
/// distinct states have distinct numbers.
pub proof fn lemma_state_numbers_follow_protocol(s: InstanceState, t: InstanceState, n: i32)
    ensures
        state_of_number(0) == Some(InstanceState::Running),
        state_of_number(1) == Some(InstanceState::Starting),
        state_of_number(2) == Some(InstanceState::Stopped),
        state_of_number(3) == Some(InstanceState::Stopping),
        state_of_number(4) == Some(InstanceState::Destroying),
        state_of_number(5) == Some(InstanceState::Terminated),
        state_of_number(6) == Some(InstanceState::Crashed),
        state_of_number(7) == Some(InstanceState::Failed),
        state_of_number(8) == Some(InstanceState::Scheduling),
        state_of_number(9) == Some(InstanceState::Scheduled),
        state_number(InstanceState::Running) == 0,
        state_number(InstanceState::Starting) == 1,
        state_number(InstanceState::Stopped) == 2,
        state_number(InstanceState::Stopping) == 3,
        state_number(InstanceState::Destroying) == 4,
        state_number(InstanceState::Terminated) == 5,
        state_number(InstanceState::Crashed) == 6,
        state_number(InstanceState::Failed) == 7,
        state_number(InstanceState::Scheduling) == 8,
        state_number(InstanceState::Scheduled) == 9,
        0 <= state_number(s) < 10,
        state_number(s) == state_number(t) ==> s == t,
        (n < 0 || n >= 10) <==> state_of_number(n) is None,
        state_of_number(n) matches Some(u) ==> state_number(u) == n,
{
}

/// Decoding a state's number gives the state back.
pub proof fn lemma_state_number_roundtrip(s: InstanceState)
    ensures
        state_of_number(state_number(s)) == Some(s),
{
}

} // verus!
