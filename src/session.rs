//! The prompt's decisions: when to ask again, when to scan, when to give up.

use vstd::prelude::*;

verus! {

/// How many empty inputs or failed scans end the session.
pub const ATTEMPT_LIMIT: u32 = 2;

/// What happened since the last action.
#[derive(Debug, Clone, Copy, PartialEq, Eq, Structural)]
pub enum PromptEvent {
    /// The cleaned input was empty.
    EmptyInput,
    /// The cleaned input named a path.
    PathGiven,
    /// The path could not be listed.
    ScanFailed,
    /// The path was listed.
    ScanSucceeded,
}

/// What to do next.
#[derive(Debug, Clone, Copy, PartialEq, Eq, Structural)]
pub enum PromptAction {
    /// Ask for a path again.
    Prompt,
    /// List the folder at the given path.
    Scan,
    /// Sort the listed files; the session is then over.
    ProcessFiles,
    /// Say goodbye; the session is over.
    Farewell,
    /// The session is over; nothing more is done.
    Done,
}

/// The state of the prompt: the failed attempts so far, and whether the
/// session is over.
#[derive(Debug)]
pub struct PromptSession {
    attempts: u32,
    finished: bool,
}

/// The state before the first input.
pub open spec fn initial_session() -> (nat, bool) {
    (0, false)
}

/// The state after one more failed attempt, and what to do.
pub open spec fn after_failure(s: (nat, bool)) -> ((nat, bool), PromptAction) {
    let a: nat = if s.0 < ATTEMPT_LIMIT { s.0 + 1 } else { s.0 };
    if a >= ATTEMPT_LIMIT {
        ((a, true), PromptAction::Farewell)
    } else {
        ((a, false), PromptAction::Prompt)
    }
}

/// One step of the prompt: the next state and the action for an event.
pub open spec fn session_step(s: (nat, bool), e: PromptEvent) -> ((nat, bool), PromptAction) {
    if s.1 {
        (s, PromptAction::Done)
    } else {
        match e {
            PromptEvent::EmptyInput => after_failure(s),
            PromptEvent::ScanFailed => after_failure(s),
            PromptEvent::PathGiven => (s, PromptAction::Scan),
            PromptEvent::ScanSucceeded => ((s.0, true), PromptAction::ProcessFiles),
        }
    }
}

impl View for PromptSession {
    type V = (nat, bool);

    closed spec fn view(&self) -> (nat, bool) {
        (self.attempts as nat, self.finished)
    }
}

impl PromptSession {
    pub fn new() -> (r: PromptSession)
        ensures
            r@ == initial_session(),
    {
        PromptSession { attempts: 0, finished: false }
    }

    /// Whether the session is over.
    pub fn is_finished(&self) -> (r: bool)
        ensures
            r == self@.1,
    {
        self.finished
    }

    /// Takes one event and says what to do next. An empty input and a failed
    /// scan each use up one attempt; the second ends the session with a
    /// farewell. A listed folder ends it with the files sorted.
    pub fn step(&mut self, event: PromptEvent) -> (r: PromptAction)
        ensures
            (final(self)@, r) == session_step(old(self)@, event),
    {
        if self.finished {
            return PromptAction::Done;
        }
        match event {
            PromptEvent::PathGiven => PromptAction::Scan,
            PromptEvent::ScanSucceeded => {
                self.finished = true;
                PromptAction::ProcessFiles
            },
            _ => {
                if self.attempts < ATTEMPT_LIMIT {
                    self.attempts = self.attempts + 1;
                }
                if self.attempts >= ATTEMPT_LIMIT {
                    self.finished = true;
                    PromptAction::Farewell
                } else {
                    PromptAction::Prompt
                }
            },
        }
    }
}

/// The event for a cleaned input: empty, or a path.
pub fn input_event(cleaned: &str) -> (r: PromptEvent)
    ensures
        r == (if cleaned@.len() == 0 {
            PromptEvent::EmptyInput
        } else {
            PromptEvent::PathGiven
        }),
{
    if cleaned.is_empty() {
        PromptEvent::EmptyInput
    } else {
        PromptEvent::PathGiven
    }
}

/// Two empty inputs in a row end a new session: the first asks again, the
/// second says goodbye, and after it no event leads to a scan.
pub proof fn lemma_two_empty_inputs_end()
    ensures
        ({
            let (s1, a1) = session_step(initial_session(), PromptEvent::EmptyInput);
            let (s2, a2) = session_step(s1, PromptEvent::EmptyInput);
            &&& a1 == PromptAction::Prompt
            &&& a2 == PromptAction::Farewell
            &&& s2.1
            &&& forall|e: PromptEvent| #[trigger] session_step(s2, e).1 == PromptAction::Done
        }),
{
}

/// However events come, a session takes at most two failed attempts: once
/// two have failed it is over.
pub proof fn lemma_attempts_bounded(s: (nat, bool), e: PromptEvent)
    requires
        s.0 <= ATTEMPT_LIMIT,
        s.0 == ATTEMPT_LIMIT ==> s.1,
    ensures
        session_step(s, e).0.0 <= ATTEMPT_LIMIT,
        session_step(s, e).0.0 == ATTEMPT_LIMIT ==> session_step(s, e).0.1,
{
}

} // verus!
