//! The supervisor of the control program: it waits for the vision pipeline,
//! runs the driving loop until the exit key, and then waits for the vision
//! thread to wind down. Each decision is a transition from the current phase
//! and an observed event to the next phase and an action that the program
//! carries out.

use vstd::prelude::*;

use crate::keys::{is_exit_key, spec_is_exit_key};

verus! {

/// How long the program waits for the vision pipeline before giving up.
pub const VISION_STARTUP_LIMIT_NS: u128 = 20_000_000_000;

/// Pause between two checks of the vision pipeline at startup.
pub const VISION_CHECK_PAUSE_MS: u64 = 100;

/// Pause at the end of each pass of the driving loop.
pub const CONTROL_LOOP_PAUSE_MS: u64 = 10;

/// How long the program waits for the vision thread to finish at shutdown.
pub const SHUTDOWN_LIMIT_NS: u128 = 10_000_000_000;

/// Pause between two checks of the vision thread at shutdown.
pub const SHUTDOWN_CHECK_PAUSE_MS: u64 = 100;

/// Exit status of the process when the vision thread does not finish in time.
pub const FORCED_EXIT_CODE: i32 = 1;

/// The phases of the control program.
#[derive(Clone, Copy, Debug, PartialEq, Eq, Structural)]
pub enum Phase {
    /// Waiting for the vision pipeline to report that it runs.
    AwaitingVision,
    /// The driving loop runs.
    Driving,
    /// The robot is stopped; waiting for the vision thread to finish.
    Stopping,
    /// The program ended normally.
    Stopped,
    /// The vision pipeline never came up; the program gave up.
    Aborted,
    /// The vision thread did not finish in time; the process is to exit.
    ForcedExit,
}

/// What the program observed since the last decision.
#[derive(Clone, Copy, Debug, PartialEq, Eq)]
pub enum Event {
    /// The vision pipeline's ready flag, and how long the program has waited for it.
    VisionCheck { ready: bool, waited_ns: u128 },
    /// One pass of the driving loop is done; `key` is the character of the key
    /// pressed meanwhile, if any.
    ControlTick { key: Option<char> },
    /// Whether the vision thread has finished, and how long the program has
    /// waited for it since the robot stopped.
    ShutdownCheck { finished: bool, waited_ns: u128 },
}

/// What the program is to do next.
#[derive(Clone, Copy, Debug, PartialEq, Eq, Structural)]
pub enum Action {
    /// Sleep, then observe again.
    Sleep { millis: u64 },
    /// Start the driving loop.
    EnterControlLoop,
    /// Tell the vision thread to stop and end the program without driving.
    AbortStartup,
    /// Tell the vision thread to stop, set every motor to zero, and start
    /// waiting for the vision thread.
    StopRobot,
    /// Join the vision thread and end the program normally.
    Finish,
    /// Exit the process at once with the given status.
    ForceExit { code: i32 },
    /// The event does not belong to the current phase; nothing to do.
    Ignore,
}

/// The next phase and the action for an event observed in a phase.
pub open spec fn transition(phase: Phase, event: Event) -> (Phase, Action) {
    match (phase, event) {
        (Phase::AwaitingVision, Event::VisionCheck { ready, waited_ns }) => {
            if ready {
                (Phase::Driving, Action::EnterControlLoop)
            } else if waited_ns > VISION_STARTUP_LIMIT_NS {
                (Phase::Aborted, Action::AbortStartup)
            } else {
                (Phase::AwaitingVision, Action::Sleep { millis: VISION_CHECK_PAUSE_MS })
            }
        },
        (Phase::Driving, Event::ControlTick { key }) => {
            if spec_is_exit_key(key) {
                (Phase::Stopping, Action::StopRobot)
            } else {
                (Phase::Driving, Action::Sleep { millis: CONTROL_LOOP_PAUSE_MS })
            }
        },
        (Phase::Stopping, Event::ShutdownCheck { finished, waited_ns }) => {
            if finished {
                (Phase::Stopped, Action::Finish)
            } else if waited_ns > SHUTDOWN_LIMIT_NS {
                (Phase::ForcedExit, Action::ForceExit { code: FORCED_EXIT_CODE })
            } else {
                (Phase::Stopping, Action::Sleep { millis: SHUTDOWN_CHECK_PAUSE_MS })
            }
        },
        _ => (phase, Action::Ignore),
    }
}

/// The phases in which the program has ended.
pub open spec fn is_terminal(phase: Phase) -> bool {
    phase == Phase::Stopped || phase == Phase::Aborted || phase == Phase::ForcedExit
}

/// The order in which phases follow one another.
pub open spec fn phase_rank(phase: Phase) -> nat {
    match phase {
        Phase::AwaitingVision => 0,
        Phase::Driving => 1,
        Phase::Stopping => 2,
        Phase::Stopped => 3,
        Phase::Aborted => 3,
        Phase::ForcedExit => 3,
    }
}

/// The supervisor of the control program.
pub struct Supervisor {
    phase: Phase,
}

impl Supervisor {
    /// The supervisor's current phase.
    pub closed spec fn spec_phase(&self) -> Phase {
        self.phase
    }

    /// A supervisor at program start, waiting for the vision pipeline.
    pub fn new() -> (s: Supervisor)
        ensures
            s.spec_phase() == Phase::AwaitingVision,
    {
        Supervisor { phase: Phase::AwaitingVision }
    }

    /// The current phase.
    pub fn phase(&self) -> (p: Phase)
        ensures
            p == self.spec_phase(),
    {
        self.phase
    }

    /// Takes one decision: moves to the next phase for `event` and returns
    /// the action that the program is to carry out.
    pub fn handle(&mut self, event: Event) -> (action: Action)
        ensures
            (final(self).spec_phase(), action) == transition(old(self).spec_phase(), event),
    {
        let (next, action) = match (self.phase, event) {
            (Phase::AwaitingVision, Event::VisionCheck { ready, waited_ns }) => {
                if ready {
                    (Phase::Driving, Action::EnterControlLoop)
                } else if waited_ns > VISION_STARTUP_LIMIT_NS {
                    (Phase::Aborted, Action::AbortStartup)
                } else {
                    (Phase::AwaitingVision, Action::Sleep { millis: VISION_CHECK_PAUSE_MS })
                }
            },
            (Phase::Driving, Event::ControlTick { key }) => {
                if is_exit_key(key) {
                    (Phase::Stopping, Action::StopRobot)
                } else {
                    (Phase::Driving, Action::Sleep { millis: CONTROL_LOOP_PAUSE_MS })
                }
            },
            (Phase::Stopping, Event::ShutdownCheck { finished, waited_ns }) => {
                if finished {
                    (Phase::Stopped, Action::Finish)
                } else if waited_ns > SHUTDOWN_LIMIT_NS {
                    (Phase::ForcedExit, Action::ForceExit { code: FORCED_EXIT_CODE })
                } else {
                    (Phase::Stopping, Action::Sleep { millis: SHUTDOWN_CHECK_PAUSE_MS })
                }
            },
            (phase, _) => (phase, Action::Ignore),
        };
        self.phase = next;
        action
    }
}

/// The driving loop is entered only from the wait for the vision pipeline,
/// and only when the pipeline reports that it is ready.
pub proof fn lemma_drives_only_after_vision_ready(phase: Phase, event: Event)
    requires
        phase != Phase::Driving,
        transition(phase, event).0 == Phase::Driving,
    ensures
        phase == Phase::AwaitingVision,
        event matches Event::VisionCheck { ready, .. } && ready,
        transition(phase, event).1 == Action::EnterControlLoop,
{
}

/// The driving loop is left only by stopping the robot, and only on the exit key.
pub proof fn lemma_leaving_drive_stops_robot(event: Event)
    requires
        transition(Phase::Driving, event).0 != Phase::Driving,
    ensures
        transition(Phase::Driving, event) == (Phase::Stopping, Action::StopRobot),
        event matches Event::ControlTick { key } && spec_is_exit_key(key),
{
}

/// Once the program has ended, no event changes its phase or asks for anything.
pub proof fn lemma_terminal_phases_absorb(phase: Phase, event: Event)
    requires
        is_terminal(phase),
    ensures
        transition(phase, event) == (phase, Action::Ignore),
{
}

/// Phases never go back: the program only moves forward through startup,
/// driving, stopping and its end.
pub proof fn lemma_phases_move_forward(phase: Phase, event: Event)
    ensures
        phase_rank(phase) <= phase_rank(transition(phase, event).0),
        transition(phase, event).0 != phase ==> phase_rank(phase) < phase_rank(transition(phase, event).0),
{
}

/// Neither wait goes on past its limit: an observation made after the limit
/// always ends the wait.
pub proof fn lemma_waits_are_bounded(ready: bool, finished: bool, waited_ns: u128)
    ensures
        waited_ns > VISION_STARTUP_LIMIT_NS ==> transition(
            Phase::AwaitingVision,
            Event::VisionCheck { ready, waited_ns },
        ).0 != Phase::AwaitingVision,
        waited_ns > SHUTDOWN_LIMIT_NS ==> transition(
            Phase::Stopping,
            Event::ShutdownCheck { finished, waited_ns },
        ).0 != Phase::Stopping,
{
}

/// At startup a ready pipeline always starts the driving loop, however long
/// the program has waited; the program gives up only when the pipeline is not
/// ready and more than 20 s have passed, and otherwise checks again after
/// 100 ms.
pub proof fn lemma_startup_decision(ready: bool, waited_ns: u128)
    ensures
        ready ==> transition(Phase::AwaitingVision, Event::VisionCheck { ready, waited_ns }) == (
            Phase::Driving,
            Action::EnterControlLoop,
        ),
        !ready && waited_ns > 20_000_000_000 ==> transition(
            Phase::AwaitingVision,
            Event::VisionCheck { ready, waited_ns },
        ) == (Phase::Aborted, Action::AbortStartup),
        !ready && waited_ns <= 20_000_000_000 ==> transition(
            Phase::AwaitingVision,
            Event::VisionCheck { ready, waited_ns },
        ) == (Phase::AwaitingVision, Action::Sleep { millis: 100 }),
{
}

/// While driving, only `e` or `E` stops the robot; any other key, or none,
/// keeps driving with a 10 ms pause.
pub proof fn lemma_drive_decision(key: Option<char>)
    ensures
        (key == Some('e') || key == Some('E')) ==> transition(
            Phase::Driving,
            Event::ControlTick { key },
        ) == (Phase::Stopping, Action::StopRobot),
        !(key == Some('e') || key == Some('E')) ==> transition(
            Phase::Driving,
            Event::ControlTick { key },
        ) == (Phase::Driving, Action::Sleep { millis: 10 }),
{
}

/// At shutdown a finished vision thread always ends the program normally,
/// however long the program has waited; the process is forced out with
/// status 1 only when the thread has not finished and more than 10 s have
/// passed, and otherwise checks again after 100 ms.
pub proof fn lemma_shutdown_decision(finished: bool, waited_ns: u128)
    ensures
        finished ==> transition(Phase::Stopping, Event::ShutdownCheck { finished, waited_ns }) == (
            Phase::Stopped,
            Action::Finish,
        ),
        !finished && waited_ns > 10_000_000_000 ==> transition(
            Phase::Stopping,
            Event::ShutdownCheck { finished, waited_ns },
        ) == (Phase::ForcedExit, Action::ForceExit { code: 1 }),
        !finished && waited_ns <= 10_000_000_000 ==> transition(
            Phase::Stopping,
            Event::ShutdownCheck { finished, waited_ns },
        ) == (Phase::Stopping, Action::Sleep { millis: 100 }),
        transition(Phase::Stopping, Event::ShutdownCheck { finished, waited_ns }).1 matches Action::ForceExit { .. }
            ==> !finished,
{
}

} // verus!
