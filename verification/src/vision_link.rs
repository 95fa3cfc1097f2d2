//! The link between the control program and the vision pipeline that runs in
//! a background thread: a handshake that waits for the pipeline's worker
//! threads to come alive, then a polling loop that forwards each result the
//! pipeline reports until the program asks the link to stop.

use vstd::prelude::*;

verus! {

/// How many times the handshake asks the pipeline whether it is alive.
pub const HANDSHAKE_ATTEMPTS: u32 = 150;

/// Pause after each handshake answer that the pipeline is not alive yet.
pub const HANDSHAKE_RETRY_MS: u64 = 100;

/// Pause after each pass of the polling loop.
pub const POLL_PAUSE_MS: u64 = 20;

/// The phases of the link.
#[derive(Clone, Copy, Debug, PartialEq, Eq, Structural)]
pub enum LinkPhase {
    /// Asking the pipeline whether it is alive; `attempts` answers were "not yet".
    Handshaking { attempts: u32 },
    /// Polling the pipeline for results.
    Polling,
    /// The pipeline was told to stop.
    Stopped,
}

/// What the link observed.
#[derive(Debug, PartialEq, Eq)]
pub enum LinkEvent {
    /// The pipeline's answer to "are your worker threads running?".
    Liveness { alive: bool },
    /// The program's running flag, read at the top of each polling pass.
    RunCheck { running: bool },
    /// The pipeline's latest result: its text, or `None` when it has none
    /// (or reported something that is not text).
    Latest { result: Option<String> },
}

/// What the link is to do next.
#[derive(Debug, PartialEq, Eq)]
pub enum LinkAction {
    /// Raise the program's ready flag; polling starts at once.
    MarkReady,
    /// Sleep, then ask again (or start polling, when the attempts are used up).
    Retry { millis: u64 },
    /// Ask the pipeline for its latest result.
    FetchLatest,
    /// Send `data` to the control program, then sleep.
    Forward { data: String, pause_ms: u64 },
    /// Sleep without sending anything.
    Pause { millis: u64 },
    /// Tell the pipeline to stop; the link ends.
    SignalStop,
    /// The event does not belong to the current phase; nothing to do.
    Ignore,
}

/// A phase that the link can be in: the handshake has attempts left.
pub open spec fn link_phase_wf(phase: LinkPhase) -> bool {
    match phase {
        LinkPhase::Handshaking { attempts } => attempts < HANDSHAKE_ATTEMPTS,
        _ => true,
    }
}

/// The next phase and the action for an event observed in a phase.
pub open spec fn link_transition(phase: LinkPhase, event: LinkEvent) -> (LinkPhase, LinkAction) {
    match (phase, event) {
        (LinkPhase::Handshaking { attempts }, LinkEvent::Liveness { alive }) => {
            if alive {
                (LinkPhase::Polling, LinkAction::MarkReady)
            } else if attempts + 1 >= HANDSHAKE_ATTEMPTS {
                (LinkPhase::Polling, LinkAction::Retry { millis: HANDSHAKE_RETRY_MS })
            } else {
                (
                    LinkPhase::Handshaking { attempts: (attempts + 1) as u32 },
                    LinkAction::Retry { millis: HANDSHAKE_RETRY_MS },
                )
            }
        },
        (LinkPhase::Polling, LinkEvent::RunCheck { running }) => {
            if running {
                (LinkPhase::Polling, LinkAction::FetchLatest)
            } else {
                (LinkPhase::Stopped, LinkAction::SignalStop)
            }
        },
        (LinkPhase::Polling, LinkEvent::Latest { result }) => {
            match result {
                Some(data) => (LinkPhase::Polling, LinkAction::Forward { data, pause_ms: POLL_PAUSE_MS }),
                None => (LinkPhase::Polling, LinkAction::Pause { millis: POLL_PAUSE_MS }),
            }
        },
        _ => (phase, LinkAction::Ignore),
    }
}

/// The link's phase after `n` answers "not alive" in a row.
pub open spec fn after_failed_answers(phase: LinkPhase, n: nat) -> LinkPhase
    decreases n,
{
    if n == 0 {
        phase
    } else {
        after_failed_answers(link_transition(phase, LinkEvent::Liveness { alive: false }).0, (n - 1) as nat)
    }
}

/// The order in which the link's phases follow one another.
pub open spec fn link_rank(phase: LinkPhase) -> nat {
    match phase {
        LinkPhase::Handshaking { .. } => 0,
        LinkPhase::Polling => 1,
        LinkPhase::Stopped => 2,
    }
}

/// The link to the vision pipeline.
pub struct VisionLink {
    phase: LinkPhase,
}

impl VisionLink {
    /// The link's current phase.
    pub closed spec fn spec_phase(&self) -> LinkPhase {
        self.phase
    }

    /// Every link is in a phase that it can be in.
    #[verifier::type_invariant]
    spec fn wf(self) -> bool {
        link_phase_wf(self.phase)
    }

    /// A link that starts the handshake.
    pub fn new() -> (link: VisionLink)
        ensures
            link.spec_phase() == (LinkPhase::Handshaking { attempts: 0 }),
    {
        VisionLink { phase: LinkPhase::Handshaking { attempts: 0 } }
    }

    /// The current phase.
    pub fn phase(&self) -> (p: LinkPhase)
        ensures
            p == self.spec_phase(),
    {
        self.phase
    }

    /// Takes one decision: moves to the next phase for `event` and returns the
    /// action that the link is to carry out.
    pub fn handle(&mut self, event: LinkEvent) -> (action: LinkAction)
        ensures
            link_phase_wf(final(self).spec_phase()),
            (final(self).spec_phase(), action) == link_transition(old(self).spec_phase(), event),
    {
        proof {
            use_type_invariant(&*self);
        }
        let (next, action) = match (self.phase, event) {
            (LinkPhase::Handshaking { attempts }, LinkEvent::Liveness { alive }) => {
                if alive {
                    (LinkPhase::Polling, LinkAction::MarkReady)
                } else if attempts + 1 >= HANDSHAKE_ATTEMPTS {
                    (LinkPhase::Polling, LinkAction::Retry { millis: HANDSHAKE_RETRY_MS })
                } else {
                    (
                        LinkPhase::Handshaking { attempts: attempts + 1 },
                        LinkAction::Retry { millis: HANDSHAKE_RETRY_MS },
                    )
                }
            },
            (LinkPhase::Polling, LinkEvent::RunCheck { running }) => {
                if running {
                    (LinkPhase::Polling, LinkAction::FetchLatest)
                } else {
                    (LinkPhase::Stopped, LinkAction::SignalStop)
                }
            },
            (LinkPhase::Polling, LinkEvent::Latest { result }) => {
                match result {
                    Some(data) => (LinkPhase::Polling, LinkAction::Forward { data, pause_ms: POLL_PAUSE_MS }),
                    None => (LinkPhase::Polling, LinkAction::Pause { millis: POLL_PAUSE_MS }),
                }
            },
            (phase, _) => (phase, LinkAction::Ignore),
        };
        self.phase = next;
        action
    }
}

/// Every decision keeps the link in a phase that it can be in.
pub proof fn lemma_link_transition_keeps_wf(phase: LinkPhase, event: LinkEvent)
    requires
        link_phase_wf(phase),
    ensures
        link_phase_wf(link_transition(phase, event).0),
{
}

/// The handshake is bounded: from a handshake that has had `k` answers
/// "not alive", `n` more such answers reach polling exactly when `k + n`
/// reaches the number of attempts.
pub proof fn lemma_handshake_is_bounded(k: u32, n: nat)
    requires
        k < HANDSHAKE_ATTEMPTS,
    ensures
        k + n >= HANDSHAKE_ATTEMPTS ==> after_failed_answers(LinkPhase::Handshaking { attempts: k }, n)
            == LinkPhase::Polling,
        k + n < HANDSHAKE_ATTEMPTS ==> after_failed_answers(LinkPhase::Handshaking { attempts: k }, n)
            == (LinkPhase::Handshaking { attempts: (k + n) as u32 }),
    decreases n,
{
    if n > 0 {
        let next = link_transition(LinkPhase::Handshaking { attempts: k }, LinkEvent::Liveness { alive: false }).0;
        if k + 1 >= HANDSHAKE_ATTEMPTS {
            lemma_polling_ignores_answers((n - 1) as nat);
        } else {
            assert(next == (LinkPhase::Handshaking { attempts: (k + 1) as u32 }));
            lemma_handshake_is_bounded((k + 1) as u32, (n - 1) as nat);
        }
    }
}

/// Liveness answers do not move a link that is already polling.
pub proof fn lemma_polling_ignores_answers(n: nat)
    ensures
        after_failed_answers(LinkPhase::Polling, n) == LinkPhase::Polling,
    decreases n,
{
    if n > 0 {
        lemma_polling_ignores_answers((n - 1) as nat);
    }
}

/// The ready flag is raised at most once: only a handshake raises it, and
/// it leaves the handshake for good.
pub proof fn lemma_ready_only_from_handshake(phase: LinkPhase, event: LinkEvent)
    requires
        link_transition(phase, event).1 == LinkAction::MarkReady,
    ensures
        phase matches LinkPhase::Handshaking { .. },
        link_transition(phase, event).0 == LinkPhase::Polling,
{
}

/// The link never goes back to an earlier phase.
pub proof fn lemma_link_moves_forward(phase: LinkPhase, event: LinkEvent)
    ensures
        link_rank(phase) <= link_rank(link_transition(phase, event).0),
{
}

/// After the stop signal the link forwards nothing and asks for nothing more.
pub proof fn lemma_stopped_link_is_silent(event: LinkEvent)
    ensures
        link_transition(LinkPhase::Stopped, event) == (LinkPhase::Stopped, LinkAction::Ignore),
{
}

/// Once the program clears its running flag, the next check tells the
/// pipeline to stop.
pub proof fn lemma_cleared_flag_stops_pipeline()
    ensures
        link_transition(LinkPhase::Polling, LinkEvent::RunCheck { running: false }) == (
            LinkPhase::Stopped,
            LinkAction::SignalStop,
        ),
{
}

/// While polling, what is forwarded is exactly the result that the pipeline reported.
pub proof fn lemma_forwards_what_was_reported(result: Option<String>)
    ensures
        link_transition(LinkPhase::Polling, LinkEvent::Latest { result }).1 == (match result {
            Some(data) => LinkAction::Forward { data, pause_ms: POLL_PAUSE_MS },
            None => LinkAction::Pause { millis: POLL_PAUSE_MS },
        }),
{
}

/// During the handshake an alive answer always raises the ready flag and
/// starts polling, whatever the number of earlier answers; a "not alive"
/// answer pauses 100 ms and counts one more attempt, and the 150th such
/// answer starts polling without the flag.
pub proof fn lemma_handshake_decision(attempts: u32, alive: bool)
    requires
        attempts < 150,
    ensures
        alive ==> link_transition(
            LinkPhase::Handshaking { attempts },
            LinkEvent::Liveness { alive },
        ) == (LinkPhase::Polling, LinkAction::MarkReady),
        !alive && attempts + 1 < 150 ==> link_transition(
            LinkPhase::Handshaking { attempts },
            LinkEvent::Liveness { alive },
        ) == (LinkPhase::Handshaking { attempts: (attempts + 1) as u32 }, LinkAction::Retry { millis: 100 }),
        !alive && attempts + 1 == 150 ==> link_transition(
            LinkPhase::Handshaking { attempts },
            LinkEvent::Liveness { alive },
        ) == (LinkPhase::Polling, LinkAction::Retry { millis: 100 }),
{
}

/// While polling, a set running flag asks for the latest result and a
/// cleared one tells the pipeline to stop; a reported result is forwarded as
/// it is, and either way the link pauses 20 ms.
pub proof fn lemma_polling_decision(running: bool, result: Option<String>)
    ensures
        running ==> link_transition(LinkPhase::Polling, LinkEvent::RunCheck { running }) == (
            LinkPhase::Polling,
            LinkAction::FetchLatest,
        ),
        !running ==> link_transition(LinkPhase::Polling, LinkEvent::RunCheck { running }) == (
            LinkPhase::Stopped,
            LinkAction::SignalStop,
        ),
        result matches Some(data) ==> link_transition(
            LinkPhase::Polling,
            LinkEvent::Latest { result },
        ) == (LinkPhase::Polling, LinkAction::Forward { data, pause_ms: 20 }),
        result is None ==> link_transition(LinkPhase::Polling, LinkEvent::Latest { result }) == (
            LinkPhase::Polling,
            LinkAction::Pause { millis: 20 },
        ),
{
}

} // verus!
