use vstd::prelude::*;

use crate::manager::ManagerMessage;

verus! {

/// A terminal event, as far as the coordinator cares.
#[derive(Debug, Clone, Copy, PartialEq, Eq, Structural)]
pub enum InputEvent {
    /// A key press: the character typed, and whether Control was held.
    Key { code: char, control: bool },
    /// The terminal changed size.
    Resize,
    /// Anything else.
    Other,
}

/// The command a terminal event stands for: `q` or Control-`c` quit, space
/// snoozes, `b` rings a test alert, a resize redraws.
pub open spec fn spec_command_for(e: InputEvent) -> Option<ManagerMessage> {
    match e {
        InputEvent::Resize => Some(ManagerMessage::Redraw),
        InputEvent::Key { code, control } => if code == 'q' || (code == 'c' && control) {
            Some(ManagerMessage::Quit)
        } else if code == ' ' {
            Some(ManagerMessage::Snooze)
        } else if code == 'b' {
            Some(ManagerMessage::Bell)
        } else {
            None
        },
        InputEvent::Other => None,
    }
}

/// The command for a terminal event, if any.
pub fn command_for(e: InputEvent) -> (r: Option<ManagerMessage>)
    ensures
        r == spec_command_for(e),
{
    match e {
        InputEvent::Resize => Some(ManagerMessage::Redraw),
        InputEvent::Key { code, control } => {
            if code == 'q' || (code == 'c' && control) {
                Some(ManagerMessage::Quit)
            } else if code == ' ' {
                Some(ManagerMessage::Snooze)
            } else if code == 'b' {
                Some(ManagerMessage::Bell)
            } else {
                None
            }
        },
        InputEvent::Other => None,
    }
}

/// A process signal that the program listens for.
#[derive(Debug, Clone, Copy, PartialEq, Eq, Structural)]
pub enum Signal {
    Hangup,
    Terminate,
    Interrupt,
    Quit,
}

/// The exit code of a process ended by a termination signal.
pub const SIGNAL_EXIT_CODE: i32 = 2;

/// What to do on a signal.
#[derive(Debug, Clone, Copy, PartialEq, Eq, Structural)]
pub struct SignalPlan {
    /// Hand `Stop` to the alert device supervisor.
    pub stop_bell: bool,
    /// Clear the screen and leave the alternate screen.
    pub restore_screen: bool,
    /// End the process with this code.
    pub exit_code: Option<i32>,
}

/// Every signal silences the alert first; a hangup only leaves raw mode and
/// goes on, the others restore the screen and end the process with
/// `SIGNAL_EXIT_CODE`.
pub open spec fn spec_signal_plan(s: Signal) -> SignalPlan {
    match s {
        Signal::Hangup => SignalPlan { stop_bell: true, restore_screen: false, exit_code: None },
        _ => SignalPlan { stop_bell: true, restore_screen: true, exit_code: Some(SIGNAL_EXIT_CODE) },
    }
}

pub fn signal_plan(s: Signal) -> (r: SignalPlan)
    ensures
        r == spec_signal_plan(s),
{
    match s {
        Signal::Hangup => SignalPlan { stop_bell: true, restore_screen: false, exit_code: None },
        _ => SignalPlan { stop_bell: true, restore_screen: true, exit_code: Some(SIGNAL_EXIT_CODE) },
    }
}

} // verus!
