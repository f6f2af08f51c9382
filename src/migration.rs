//! The migration loop, as a state machine. Each candidate is replayed onto the
//! working branch, built, tested, and its message rewritten; the caller
//! performs each action the machine asks for and reports back what happened.

use vstd::prelude::*;

use crate::text::{is_prefix, owned};
use crate::upstream::{maybe_prefix, judge_tests, test_verdict, BuildError, Candidate};

verus! {

/// Where the loop stands for the current candidate.
#[derive(Clone, Copy, Debug, PartialEq, Eq, Structural)]
pub enum Phase {
    /// Nothing has started yet.
    Ready,
    /// Waiting for the replay of the current candidate.
    Replaying,
    /// Waiting for the build.
    Building,
    /// Waiting for the tests.
    Testing,
    /// Waiting for the message of the replayed commit.
    Reading,
    /// Waiting for the amended message to be written.
    Amending,
    /// Every candidate has been handled.
    Done,
    /// A replay conflicted, or an event came out of turn: the run stops here.
    Aborted,
}

/// What happened after an action.
pub enum Event {
    /// Begin the run.
    Start,
    /// The candidate applied cleanly.
    Replayed,
    /// The candidate did not apply.
    Conflicted,
    /// The build passed.
    Built,
    /// The build failed.
    BuildFailed,
    /// The tests ran: whether their command succeeded, and what they printed.
    Tested { passed: bool, output: String },
    /// The message of the replayed commit.
    Message(String),
    /// The new message was written.
    Amended,
}

/// What the caller must do next.
pub enum Action {
    /// Replay this commit onto the working branch.
    CherryPick(String),
    /// Build the working tree.
    Build,
    /// Run the tests on the working tree.
    Test,
    /// Read the message of the commit at the tip of the working branch.
    ReadMessage,
    /// Replace the message of that commit with this one.
    Amend(String),
    /// The run is complete.
    Finish,
    /// The run stopped; the working branch is left for inspection.
    Abort,
}

/// The state of a run.
pub struct Migration {
    /// The commits to forward, in replay order.
    pub candidates: Vec<Candidate>,
    /// The title prefix of forwarded commits.
    pub marker: String,
    /// The position of the current candidate.
    pub next: usize,
    pub phase: Phase,
    /// The validation result of the current candidate so far.
    pub verdict: Option<BuildError>,
    /// The result of each handled candidate, under its original identifier, in replay order.
    pub outcomes: Vec<(String, Option<BuildError>)>,
}

/// The phases in which a candidate is being handled.
pub open spec fn in_progress(p: Phase) -> bool {
    p == Phase::Replaying || p == Phase::Building || p == Phase::Testing || p == Phase::Reading
        || p == Phase::Amending
}

/// `t` asks for the candidate at `t.next`, or finishes when none is left.
pub open spec fn advanced(t: Migration, r: Action) -> bool {
    &&& t.verdict is None
    &&& if t.next == t.candidates@.len() {
        t.phase == Phase::Done && r is Finish
    } else {
        t.phase == Phase::Replaying && (r matches Action::CherryPick(id) && id
            == t.candidates@[t.next as int].id)
    }
}

/// `t` records the current candidate of `s` with its verdict and moves on.
pub open spec fn recorded(s: Migration, t: Migration, r: Action) -> bool {
    &&& t.next == s.next + 1
    &&& t.outcomes@ == s.outcomes@.push((s.candidates@[s.next as int].id, s.verdict))
    &&& advanced(t, r)
}

/// `t` is `s` moved to phase `p` with verdict `v`, on the same candidate and with the same outcomes.
pub open spec fn moved(s: Migration, t: Migration, p: Phase, v: Option<BuildError>) -> bool {
    t.next == s.next && t.outcomes == s.outcomes && t.phase == p && t.verdict == v
}

/// One step of the loop: from `s`, on event `e`, to `t`, asking for `r`.
pub open spec fn transition(s: Migration, e: Event, t: Migration, r: Action) -> bool {
    match s.phase {
        Phase::Done => moved(s, t, Phase::Done, s.verdict) && r is Finish,
        Phase::Aborted => moved(s, t, Phase::Aborted, s.verdict) && r is Abort,
        Phase::Ready => match e {
            Event::Start => t.outcomes == s.outcomes && t.next == s.next && advanced(t, r),
            _ => moved(s, t, Phase::Aborted, s.verdict) && r is Abort,
        },
        Phase::Replaying => match e {
            Event::Replayed => moved(s, t, Phase::Building, s.verdict) && r is Build,
            Event::Conflicted => moved(s, t, Phase::Aborted, s.verdict) && r is Abort,
            _ => moved(s, t, Phase::Aborted, s.verdict) && r is Abort,
        },
        Phase::Building => match e {
            Event::Built => moved(s, t, Phase::Testing, s.verdict) && r is Test,
            Event::BuildFailed => moved(s, t, Phase::Reading, Some(BuildError::Build))
                && r is ReadMessage,
            _ => moved(s, t, Phase::Aborted, s.verdict) && r is Abort,
        },
        Phase::Testing => match e {
            Event::Tested { passed, output } => moved(
                s,
                t,
                Phase::Reading,
                test_verdict(passed, output@),
            ) && r is ReadMessage,
            _ => moved(s, t, Phase::Aborted, s.verdict) && r is Abort,
        },
        Phase::Reading => match e {
            Event::Message(m) => if is_prefix(s.marker@, m@) {
                recorded(s, t, r)
            } else {
                moved(s, t, Phase::Amending, s.verdict) && (r matches Action::Amend(n) && n@
                    == s.marker@ + m@)
            },
            _ => moved(s, t, Phase::Aborted, s.verdict) && r is Abort,
        },
        Phase::Amending => match e {
            Event::Amended => recorded(s, t, r),
            _ => moved(s, t, Phase::Aborted, s.verdict) && r is Abort,
        },
    }
}

impl Migration {
    /// The run's invariant: every handled candidate has exactly one outcome,
    /// under its identifier, in replay order.
    pub open spec fn wf(&self) -> bool {
        &&& self.next <= self.candidates@.len()
        &&& self.outcomes@.len() == self.next
        &&& forall|k: int|
            0 <= k < self.next ==> (#[trigger] self.outcomes@[k]).0 == self.candidates@[k].id
        &&& self.phase == Phase::Ready ==> self.next == 0
        &&& self.phase == Phase::Done ==> self.next == self.candidates@.len()
        &&& in_progress(self.phase) ==> self.next < self.candidates@.len()
    }

    /// A run over `candidates` that has not started.
    pub fn new(candidates: Vec<Candidate>, marker: &str) -> (r: Migration)
        ensures
            r.wf(),
            r.candidates == candidates,
            r.marker@ == marker@,
            r.phase == Phase::Ready,
            r.next == 0,
            r.verdict is None,
    {
        Migration {
            candidates,
            marker: owned(marker),
            next: 0,
            phase: Phase::Ready,
            verdict: None,
            outcomes: Vec::new(),
        }
    }

    /// Asks for the candidate at `next`, or finishes.
    fn advance(&mut self) -> (r: Action)
        requires
            old(self).next <= old(self).candidates@.len(),
        ensures
            final(self).candidates == old(self).candidates,
            final(self).marker == old(self).marker,
            final(self).outcomes == old(self).outcomes,
            final(self).next == old(self).next,
            advanced(*final(self), r),
    {
        self.verdict = None;
        if self.next == self.candidates.len() {
            self.phase = Phase::Done;
            Action::Finish
        } else {
            self.phase = Phase::Replaying;
            Action::CherryPick(self.candidates[self.next].id.clone())
        }
    }

    /// Records the current candidate's verdict and moves on.
    fn record(&mut self) -> (r: Action)
        requires
            old(self).wf(),
            in_progress(old(self).phase),
        ensures
            final(self).candidates == old(self).candidates,
            final(self).marker == old(self).marker,
            final(self).wf(),
            recorded(*old(self), *final(self), r),
    {
        let len = self.candidates.len();
        let id = self.candidates[self.next].id.clone();
        self.outcomes.push((id, self.verdict));
        assert(self.next < len);
        self.next = self.next + 1;
        self.advance()
    }

    /// Stops the run.
    fn abort(&mut self) -> (r: Action)
        ensures
            final(self).candidates == old(self).candidates,
            final(self).marker == old(self).marker,
            moved(*old(self), *final(self), Phase::Aborted, old(self).verdict),
            r is Abort,
    {
        self.phase = Phase::Aborted;
        Action::Abort
    }

    /// Takes in what happened and says what to do next.
    pub fn step(&mut self, event: Event) -> (r: Action)
        requires
            old(self).wf(),
        ensures
            final(self).wf(),
            final(self).candidates == old(self).candidates,
            final(self).marker == old(self).marker,
            transition(*old(self), event, *final(self), r),
    {
        match self.phase {
            Phase::Done => Action::Finish,
            Phase::Aborted => Action::Abort,
            Phase::Ready => match event {
                Event::Start => self.advance(),
                _ => self.abort(),
            },
            Phase::Replaying => match event {
                Event::Replayed => {
                    self.phase = Phase::Building;
                    Action::Build
                },
                _ => self.abort(),
            },
            Phase::Building => match event {
                Event::Built => {
                    self.phase = Phase::Testing;
                    Action::Test
                },
                Event::BuildFailed => {
                    self.phase = Phase::Reading;
                    self.verdict = Some(BuildError::Build);
                    Action::ReadMessage
                },
                _ => self.abort(),
            },
            Phase::Testing => match event {
                Event::Tested { passed, output } => {
                    self.phase = Phase::Reading;
                    self.verdict = judge_tests(passed, output.as_str());
                    Action::ReadMessage
                },
                _ => self.abort(),
            },
            Phase::Reading => match event {
                Event::Message(m) => match maybe_prefix(m.as_str(), self.marker.as_str()) {
                    None => self.record(),
                    Some(n) => {
                        self.phase = Phase::Amending;
                        Action::Amend(n)
                    },
                },
                _ => self.abort(),
            },
            Phase::Amending => match event {
                Event::Amended => self.record(),
                _ => self.abort(),
            },
        }
    }

    /// Whether the run stopped before handling every candidate.
    pub fn aborted(&self) -> (r: bool)
        ensures
            r == (self.phase == Phase::Aborted),
    {
        self.phase == Phase::Aborted
    }
}

/// A run that finished holds exactly one outcome per candidate, in replay
/// order and under the candidate's identifier; a run that stopped holds one
/// for each candidate before the one it stopped at, and none after.
pub proof fn law_outcomes_follow_candidates(m: Migration)
    requires
        m.wf(),
    ensures
        m.phase == Phase::Done ==> m.outcomes@.len() == m.candidates@.len(),
        m.outcomes@.len() <= m.candidates@.len(),
        forall|k: int|
            0 <= k < m.outcomes@.len() ==> (#[trigger] m.outcomes@[k]).0 == m.candidates@[k].id,
{
}

} // verus!
