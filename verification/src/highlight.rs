//! Agent-owned presenter highlight state.
//!
//! The front button is a discrete toggle press, so the state is just on or
//! off, flipped by [`HighlightSession::toggle`] on each press and served to
//! observers under a generation stamp: every change bumps the generation, so
//! an observer that last saw generation `g` is answered as soon as the
//! current generation differs from `g`. Generation 0 is the observer's "seen
//! nothing" sentinel and is never current.

use vstd::prelude::*;

use crate::binding::HighlightMode;

verus! {

/// The stamp that orders published highlight observations.
pub type Generation = u64;

/// A visible highlight and how it is drawn.
#[derive(Debug, Clone, Copy, PartialEq, Eq, Structural)]
pub struct HighlightState {
    /// How the highlight is drawn.
    pub mode: HighlightMode,
}

/// What an observer of the highlight is told.
#[derive(Debug, Clone, Copy, PartialEq, Eq, Structural)]
pub struct HighlightObservation {
    /// Bumped on every change.
    pub generation: Generation,
    /// The visible highlight, or `None` when it is hidden.
    pub active: Option<HighlightState>,
}

/// The observation a session starts from: generation 1, hidden.
pub open spec fn initial_observation() -> HighlightObservation {
    HighlightObservation { generation: 1, active: None }
}

/// The observation after one press with `mode`: hidden becomes showing
/// `mode`, showing (in any mode) becomes hidden, and the generation moves on
/// by one.
pub open spec fn toggled(observation: HighlightObservation, mode: HighlightMode) -> HighlightObservation {
    HighlightObservation {
        generation: (observation.generation + 1) as u64,
        active: match observation.active {
            Some(_) => None,
            None => Some(HighlightState { mode }),
        },
    }
}

/// The observation after one press per entry of `modes`, in order.
pub open spec fn after_presses(
    observation: HighlightObservation,
    modes: Seq<HighlightMode>,
) -> HighlightObservation
    decreases modes.len(),
{
    if modes.len() == 0 {
        observation
    } else {
        toggled(after_presses(observation, modes.drop_last()), modes.last())
    }
}

/// What an observer that last saw `since` is answered right away: the
/// current observation when it has moved on from `since`, otherwise nothing
/// yet (the observer waits for a change or for its hold to elapse).
pub open spec fn ready_answer(
    observation: HighlightObservation,
    since: Generation,
) -> Option<HighlightObservation> {
    if observation.generation != since {
        Some(observation)
    } else {
        None
    }
}

/// Agent-owned toggle state for the on-screen presenter highlight. There is
/// one per agent run: one presenter is active at a time.
#[derive(Debug)]
pub struct HighlightSession {
    published: HighlightObservation,
}

impl View for HighlightSession {
    type V = HighlightObservation;

    /// The observation currently published.
    closed spec fn view(&self) -> HighlightObservation {
        self.published
    }
}

impl Default for HighlightSession {
    /// A hidden highlight at generation 1 (0 being the observer's sentinel).
    fn default() -> (session: Self)
        ensures
            session@ == initial_observation(),
    {
        HighlightSession { published: HighlightObservation { generation: 1, active: None } }
    }
}

impl HighlightSession {
    /// Flip the highlight: hidden → showing `mode`, showing (in any mode) →
    /// hidden. A press while a different mode is showing hides it rather
    /// than switching modes: the device has one button, so toggling is the
    /// only gesture. The generation must have room to move on.
    pub fn toggle(&mut self, mode: HighlightMode)
        requires
            old(self)@.generation < u64::MAX,
        ensures
            final(self)@ == toggled(old(self)@, mode),
            final(self)@.generation == old(self)@.generation + 1,
            old(self)@.active is None ==> final(self)@.active == Some(HighlightState { mode }),
            old(self)@.active is Some ==> final(self)@.active is None,
    {
        let active = match self.published.active {
            Some(_) => None,
            None => Some(HighlightState { mode }),
        };
        self.published = HighlightObservation { generation: self.published.generation + 1, active };
    }

    /// The visible highlight, without waiting for a change.
    pub fn current(&self) -> (state: Option<HighlightState>)
        ensures
            state == self@.active,
    {
        self.published.active
    }

    /// The whole published observation, generation included.
    pub fn observation(&self) -> (observation: HighlightObservation)
        ensures
            observation == self@,
    {
        self.published
    }

    /// The answer owed at once to an observer that last saw `since`: the
    /// current observation when its generation differs from `since`, else
    /// `None`, meaning the observer is to wait for the next change.
    pub fn observe_ready(&self, since: Generation) -> (answer: Option<HighlightObservation>)
        ensures
            answer == ready_answer(self@, since),
            self@.generation != since ==> answer == Some(self@),
            self@.generation == since ==> answer is None,
    {
        if self.published.generation != since {
            Some(self.published)
        } else {
            None
        }
    }
}

/// Presses from a hidden highlight alternate it: after `n` presses the
/// highlight shows exactly when `n` is odd, in the mode of the last press,
/// and the generation has moved on by `n`.
pub proof fn lemma_presses_alternate(start: Generation, modes: Seq<HighlightMode>)
    requires
        start + modes.len() <= u64::MAX,
    ensures
        after_presses(HighlightObservation { generation: start, active: None }, modes).generation
            == start + modes.len(),
        (after_presses(HighlightObservation { generation: start, active: None }, modes).active
            is Some) == (modes.len() % 2 == 1),
        modes.len() % 2 == 1 ==> after_presses(
            HighlightObservation { generation: start, active: None },
            modes,
        ).active == Some(HighlightState { mode: modes.last() }),
    decreases modes.len(),
{
    if modes.len() > 0 {
        lemma_presses_alternate(start, modes.drop_last());
    }
}

/// Two presses restore visibility: whatever the two modes, a hidden
/// highlight is hidden again and a showing one is showing again.
pub proof fn lemma_two_presses_restore_visibility(
    observation: HighlightObservation,
    first: HighlightMode,
    second: HighlightMode,
)
    ensures
        (toggled(toggled(observation, first), second).active is Some) == (observation.active is Some),
        observation.active is None ==> toggled(toggled(observation, first), second).active is None,
{
}

/// A press wakes every waiting observer: after a toggle, an observer that
/// last saw the generation from before it is answered at once with the new
/// observation.
pub proof fn lemma_toggle_wakes_observer(observation: HighlightObservation, mode: HighlightMode)
    requires
        observation.generation < u64::MAX,
    ensures
        ready_answer(toggled(observation, mode), observation.generation) == Some(
            toggled(observation, mode),
        ),
{
}

/// The sentinel is always answered: from a fresh session, after any presses
/// that fit the generation counter, an observer that has seen nothing
/// (generation 0) is answered at once.
pub proof fn lemma_unseen_observer_answered_at_once(modes: Seq<HighlightMode>)
    requires
        1 + modes.len() <= u64::MAX,
    ensures
        ready_answer(after_presses(initial_observation(), modes), 0) == Some(
            after_presses(initial_observation(), modes),
        ),
{
    lemma_presses_alternate(1, modes);
}

/// An observer is answered at once exactly when the generation it last saw
/// differs from the current one, in either direction, and then with the
/// current observation; while the generation equals the one it saw it waits,
/// whatever the highlight shows.
pub proof fn lemma_answered_exactly_on_a_different_generation(
    observation: HighlightObservation,
    since: Generation,
)
    ensures
        observation.generation != since ==> ready_answer(observation, since) == Some(observation),
        observation.generation == since ==> ready_answer(observation, since) is None,
        since > observation.generation ==> ready_answer(observation, since) == Some(observation),
{
}

/// One press: a hidden highlight shows in the pressed mode, a showing one
/// (in whatever mode) is hidden, and the generation moves on by exactly one.
pub proof fn lemma_press_flips_visibility(observation: HighlightObservation, mode: HighlightMode)
    requires
        observation.generation < u64::MAX,
    ensures
        toggled(observation, mode).generation == observation.generation + 1,
        observation.active is None ==> toggled(observation, mode).active == Some(
            HighlightState { mode },
        ),
        observation.active is Some ==> toggled(observation, mode).active is None,
{
}

} // verus!
