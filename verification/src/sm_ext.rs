//! A decorator for states that may loop endlessly: a cooperative timeout
//! with an alternate handler.
//!
//! [`TimedStateStruct`] wraps an inner definition exposing two handlers —
//! one polled while time remains, one once the timeout is reached — plus an
//! entry hook that may override the timeout.  The decorator only governs
//! which inner handler runs; whatever transition the inner handler returns
//! is forwarded unchanged.  Time is read from the shared context, which the
//! driving loop keeps current; once the timeout handler has run, a latch
//! keeps every later step of that same entry on the timeout handler, so
//! the dispatch never reverses, even under a clock that misbehaves.

use crate::outcome::{IntoOutcome, OutcomeView};
use crate::payload::{Payload, PayloadView, Shape};
use vstd::pervasive::arbitrary;
use vstd::prelude::*;

verus! {

/// A shared context that carries the run's clock: the millisecond count a
/// timed state measures its life against.  The driving loop keeps it
/// current — real or simulated, the decorator does not care.
pub trait Clock: Sized {
    /// The clock's reading in this context value.
    ///
    /// The default pins nothing down: an implementation meant to be
    /// reasoned about overrides it.
    open spec fn now_spec(self) -> u64 {
        arbitrary()
    }

    /// Reads the clock.
    fn now_ms(&self) -> (t: u64)
        ensures
            t == self.now_spec(),
    ;
}

/// The contract of the inner definition a timed state wraps: two handlers
/// in place of one, and an entry hook that may override the default
/// timeout.
pub trait TimedState: Sized {
    /// The shared context; it must carry the clock.
    type Data: Clock;

    /// What either handler returns; forwarded unchanged by the decorator.
    type Transition: IntoOutcome;

    /// The fresh, default inner value built at every entry.
    ///
    /// The default, like that of every spec operation here, pins nothing
    /// down: an implementation meant to be reasoned about overrides it.
    open spec fn fresh_spec() -> Self {
        arbitrary()
    }

    /// The income shape this state declares it requires at entry.
    open spec fn income_spec() -> Shape {
        arbitrary()
    }

    /// What the entry hook makes of the inner value, and the timeout
    /// override it chooses, in milliseconds: `None` keeps the default.
    open spec fn init_spec(self, previous: PayloadView) -> (Self, Option<u64>) {
        arbitrary()
    }

    /// One step while time remains.
    open spec fn poll_spec(self, data: Self::Data) -> (Self, Self::Data, OutcomeView) {
        arbitrary()
    }

    /// One step at or past the timeout.
    open spec fn timeout_spec(self, data: Self::Data) -> (Self, Self::Data, OutcomeView) {
        arbitrary()
    }

    /// The display name of this state.
    open spec fn name_spec(self) -> Seq<char> {
        arbitrary()
    }

    /// Builds the fresh, default inner value.
    fn fresh() -> (s: Self)
        ensures
            s == Self::fresh_spec(),
    ;

    /// The income shape this state declares.
    fn income() -> (sh: Shape)
        ensures
            sh == Self::income_spec(),
    ;

    /// The one-shot entry hook; may override the timeout, in milliseconds.
    fn init(&mut self, previous: Payload) -> (t: Option<u64>)
        ensures
            ({
                let (s2, t2) = old(self).init_spec(previous@);
                *final(self) == s2 && t == t2
            }),
    ;

    /// The handler polled on every step for which time remains.
    fn handle_if_not_timeout(&mut self, data: &mut Self::Data) -> (t: Self::Transition)
        ensures
            ({
                let (s2, d2, o) = old(self).poll_spec(*old(data));
                *final(self) == s2 && *final(data) == d2 && t.into_outcome_spec() == o
            }),
    ;

    /// The handler run on every step from the first at or past the timeout
    /// onward.
    fn handle_once_timeout(&mut self, data: &mut Self::Data) -> (t: Self::Transition)
        ensures
            ({
                let (s2, d2, o) = old(self).timeout_spec(*old(data));
                *final(self) == s2 && *final(data) == d2 && t.into_outcome_spec() == o
            }),
    ;

    /// A display name used for diagnostics, never for control flow.
    fn name(&self) -> (n: String)
        ensures
            n@ == self.name_spec(),
    ;
}

/// The time elapsed since entry.  A clock reading from before the entry
/// instant counts as no time passed: a rewound clock never counts as
/// time served.
pub open spec fn elapsed_spec(now: u64, entered: u64) -> u64 {
    if now >= entered {
        (now - entered) as u64
    } else {
        0
    }
}

/// Wraps a [`TimedState`] and provides the state operations a machine's
/// [`crate::sm::State`] carrier delegates to, with the timeout check in
/// front of the two inner handlers.
pub struct TimedStateStruct<S: TimedState> {
    /// The timeout, in milliseconds, possibly overridden at entry.
    pub timeout_ms: u64,
    /// The clock reading recorded at entry.
    pub entered_at_ms: u64,
    /// Whether the timeout handler has run for this entry; never clears.
    pub timed_out: bool,
    /// The wrapped inner definition.
    pub state: S,
}

impl<S: TimedState> TimedStateStruct<S> {
    /// The fresh, default decorated value: inner default, no time elapsed,
    /// no timeout configured, latch clear.
    pub open spec fn fresh_spec() -> Self {
        TimedStateStruct {
            timeout_ms: 0,
            entered_at_ms: 0,
            timed_out: false,
            state: S::fresh_spec(),
        }
    }

    /// The income shape the wrapped definition declares.
    pub open spec fn income_spec() -> Shape {
        S::income_spec()
    }

    /// What entry makes of a decorated value: the inner entry hook runs,
    /// the entry instant is recorded from the context's clock, the latch
    /// clears, and the timeout stands wherever the hook chose to override
    /// it.
    pub open spec fn init_spec(self, previous: PayloadView, data: S::Data) -> Self {
        let (s2, over) = self.state.init_spec(previous);
        TimedStateStruct {
            timeout_ms: match over {
                Some(t) => t,
                None => self.timeout_ms,
            },
            entered_at_ms: data.now_spec(),
            timed_out: false,
            state: s2,
        }
    }

    /// One decorated step: at or past the timeout — or once the latch is
    /// set — the timeout handler runs and the latch is set; otherwise the
    /// poll handler runs.  The inner handler's transition is forwarded
    /// unchanged.
    pub open spec fn handle_spec(self, data: S::Data) -> (TimedStateStruct<S>, S::Data, OutcomeView) {
        let due = self.timed_out || elapsed_spec(data.now_spec(), self.entered_at_ms)
            >= self.timeout_ms;
        if due {
            let (s2, d2, o) = self.state.timeout_spec(data);
            (TimedStateStruct { timed_out: true, state: s2, ..self }, d2, o)
        } else {
            let (s2, d2, o) = self.state.poll_spec(data);
            (TimedStateStruct { state: s2, ..self }, d2, o)
        }
    }

    /// The display name of the wrapped definition.
    pub open spec fn name_spec(self) -> Seq<char> {
        self.state.name_spec()
    }

    /// Builds the fresh, default decorated value.
    pub fn fresh() -> (s: Self)
        ensures
            s == Self::fresh_spec(),
    {
        TimedStateStruct { timeout_ms: 0, entered_at_ms: 0, timed_out: false, state: S::fresh() }
    }

    /// The income shape the wrapped definition declares.
    pub fn income() -> (sh: Shape)
        ensures
            sh == Self::income_spec(),
    {
        S::income()
    }

    /// The one-shot entry hook: records the entry instant, clears the
    /// latch, runs the inner hook, and takes its timeout override if it
    /// gives one.
    pub fn init(&mut self, previous: Payload, data: &S::Data)
        ensures
            *final(self) == old(self).init_spec(previous@, *data),
    {
        self.entered_at_ms = data.now_ms();
        self.timed_out = false;
        match self.state.init(previous) {
            Some(t) => {
                self.timeout_ms = t;
            },
            None => {},
        }
    }

    /// One decorated step, per [`Self::handle_spec`].
    pub fn handle(&mut self, data: &mut S::Data) -> (t: S::Transition)
        ensures
            ({
                let (s2, d2, o) = old(self).handle_spec(*old(data));
                *final(self) == s2 && *final(data) == d2 && t.into_outcome_spec() == o
            }),
    {
        let now = data.now_ms();
        let elapsed = if now >= self.entered_at_ms {
            now - self.entered_at_ms
        } else {
            0
        };
        if !self.timed_out && elapsed >= self.timeout_ms {
            self.timed_out = true;
        }
        if self.timed_out {
            self.state.handle_once_timeout(data)
        } else {
            self.state.handle_if_not_timeout(data)
        }
    }

    /// The display name of the wrapped definition.
    pub fn name(&self) -> (n: String)
        ensures
            n@ == self.name_spec(),
    {
        self.state.name()
    }
}

impl<S: TimedState> Default for TimedStateStruct<S> {
    /// The fresh, default decorated value.
    fn default() -> (s: Self)
        ensures
            s == Self::fresh_spec(),
    {
        Self::fresh()
    }
}

/// For elapsed time strictly below the configured timeout, and with the
/// latch clear, only the poll handler runs: the decorated step is exactly
/// the inner poll step, and the latch stays clear.
pub proof fn lemma_timed_polls_before_timeout<S: TimedState>(t: TimedStateStruct<S>, data: S::Data)
    requires
        !t.timed_out,
        elapsed_spec(data.now_spec(), t.entered_at_ms) < t.timeout_ms,
    ensures
        ({
            let (s2, d2, o) = t.state.poll_spec(data);
            t.handle_spec(data) == ((TimedStateStruct { state: s2, ..t }), d2, o)
        }),
        !t.handle_spec(data).0.timed_out,
{
}

/// From the first step at or past the timeout — and on every step with the
/// latch already set — only the timeout handler runs: the decorated step
/// is exactly the inner timeout step, and it sets the latch.  Since the
/// latch never clears, this holds of every later step of the same entry,
/// whatever the clock says then.
pub proof fn lemma_timed_times_out<S: TimedState>(t: TimedStateStruct<S>, data: S::Data)
    requires
        t.timed_out || elapsed_spec(data.now_spec(), t.entered_at_ms) >= t.timeout_ms,
    ensures
        ({
            let (s2, d2, o) = t.state.timeout_spec(data);
            t.handle_spec(data) == ((TimedStateStruct { timed_out: true, state: s2, ..t }), d2, o)
        }),
        t.handle_spec(data).0.timed_out,
{
}

} // verus!
