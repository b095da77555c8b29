//! The control panel's states, and which buttons each state enables.
use vstd::prelude::*;

verus! {

/// A press of one of the panel's buttons.
#[derive(Debug, Clone, Copy, PartialEq, Eq, Structural)]
pub enum FormMessage {
    OpenSerial,
    StartLog,
    StopLog,
}

#[derive(Debug, Clone, Copy, PartialEq, Eq, Structural)]
pub enum FormState {
    NoPortOpen,
    Stopped,
    Started,
}

/// What a state asks of each button: `Some(true)` enables it, `Some(false)`
/// disables it, `None` leaves it as it is.
#[derive(Debug, Clone, Copy, PartialEq, Eq, Structural)]
pub struct ButtonStates {
    pub open: Option<bool>,
    pub start: Option<bool>,
    pub stop: Option<bool>,
}

/// Without a port nothing can be started or stopped; while logging only
/// stopping is possible; once stopped a port can be reopened or logging
/// started again.
pub open spec fn buttons_for(state: FormState) -> ButtonStates {
    match state {
        FormState::NoPortOpen => ButtonStates { open: None, start: Some(false), stop: Some(false) },
        FormState::Started => ButtonStates {
            open: Some(false),
            start: Some(false),
            stop: Some(true),
        },
        FormState::Stopped => ButtonStates {
            open: Some(true),
            start: Some(true),
            stop: Some(false),
        },
    }
}

impl FormState {
    /// The changes to the buttons on entering this state.
    pub fn buttons(&self) -> (r: ButtonStates)
        ensures
            r == buttons_for(*self),
    {
        match self {
            FormState::NoPortOpen => ButtonStates { open: None, start: Some(false), stop: Some(false) },
            FormState::Started => ButtonStates {
                open: Some(false),
                start: Some(false),
                stop: Some(true),
            },
            FormState::Stopped => ButtonStates {
                open: Some(true),
                start: Some(true),
                stop: Some(false),
            },
        }
    }
}

} // verus!
