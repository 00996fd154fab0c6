//! The state machine engine: registry, runner, and the step algorithm.
//!
//! A [`StateMachine`] is a durable registry of state identities populated
//! once, before any runner exists.  A [`StateMachineRunner`] owns the shared
//! context, the active state instance, and its identity; every step consumes
//! the runner by value and returns a [`StepOutcome`], which statically
//! prevents stepping one runner value twice.
//!
//! All state kinds of one machine are carried by a single type implementing
//! [`State`]: its values are the state instances, and its statics build a
//! fresh, default-initialized instance for an identity and declare the
//! income shape an identity requires at entry.

use crate::outcome::{IntoOutcome, OutcomeData, OutcomeView, COMPLETE_ID};
use crate::payload::{Payload, PayloadView, Shape};
use std::io::Write;
use vstd::pervasive::{arbitrary, unreached};
use vstd::prelude::*;
use vstd::string::StringExecFns;

verus! {

/// The contract every state kind of a machine satisfies.
///
/// One type implements this trait per machine; each of its values is one
/// state instance.  Every executable operation is pinned to a spec-level
/// counterpart, so the engine's own contracts can name exactly what a step
/// did with the instance, the shared context, and the returned transition.
pub trait State: Sized {
    /// The shared context threaded through every step of one run.
    type Data;

    /// What a step returns; converted into the canonical transition
    /// carrier by the engine.
    type Transition: IntoOutcome;

    /// The fresh, default instance built whenever `id` is entered.
    ///
    /// The default, like that of every spec operation here, pins nothing
    /// down: an implementation meant to be reasoned about overrides it.
    open spec fn fresh_spec(id: u64) -> Self {
        arbitrary()
    }

    /// The income shape the state registered under `id` declares it
    /// requires at entry.
    open spec fn income_spec(id: u64) -> Shape {
        arbitrary()
    }

    /// What the entry hook makes of a fresh instance, the arriving payload,
    /// and a read-only view of the shared context.
    open spec fn init_spec(self, previous: PayloadView, data: Self::Data) -> Self {
        arbitrary()
    }

    /// How one step transforms the instance and the shared context, and
    /// the transition it returns.
    open spec fn handle_spec(self, data: Self::Data) -> (Self, Self::Data, OutcomeView) {
        arbitrary()
    }

    /// The display name of this instance.
    open spec fn name_spec(self) -> Seq<char> {
        arbitrary()
    }

    /// Builds the fresh, default instance of the state kind `id`.
    fn fresh(id: u64) -> (s: Self)
        ensures
            s == Self::fresh_spec(id),
    ;

    /// The income shape declared by the state kind `id`.
    fn income(id: u64) -> (sh: Shape)
        ensures
            sh == Self::income_spec(id),
    ;

    /// The one-shot entry hook, run when a transition enters this state.
    ///
    /// `previous` is the payload the transition carried; its shape has
    /// already been checked against the declared income shape.  `data` is
    /// the shared context, readable but not writable at entry.
    fn init(&mut self, previous: Payload, data: &Self::Data)
        ensures
            *final(self) == old(self).init_spec(previous@, *data),
    ;

    /// One step of this state's logic: may mutate the instance and the
    /// shared context, and says where the machine goes next.
    fn handle(&mut self, data: &mut Self::Data) -> (t: Self::Transition)
        ensures
            ({
                let (s2, d2, o) = old(self).handle_spec(*old(data));
                *final(self) == s2 && *final(data) == d2 && t.into_outcome_spec() == o
            }),
    ;

    /// A display name used for diagnostics and readability, never for
    /// control flow.
    fn name(&self) -> (n: String)
        ensures
            n@ == self.name_spec(),
    ;
}

/// The failure of the entry boundary check: a transition supplied a payload
/// whose shape is not what the destination declared.
#[derive(Clone, Debug, PartialEq, Eq)]
pub struct StateEntryError {
    /// The shape the destination declared as its income.
    pub expected: Shape,
    /// The payload actually supplied, unchanged, for diagnostics.
    pub received: Payload,
}

impl StateEntryError {
    /// Wraps a rejected payload together with the shape that was expected
    /// of it.
    pub fn from_any(expected: Shape, any: Payload) -> (e: StateEntryError)
        ensures
            e.expected == expected,
            e.received@ == any@,
    {
        StateEntryError { expected, received: any }
    }
}

/// The runtime type check performed at a state's entry boundary, and only
/// there: the arriving payload's shape is held against the declared income
/// shape of the destination.  On a match the payload is handed back for the
/// entry hook; on a mismatch it is returned unchanged inside the error.
pub fn entry_check(expected: Shape, payload: Payload) -> (r: Result<Payload, StateEntryError>)
    ensures
        payload@.shape() == expected ==> (r matches Ok(p) && p@ == payload@),
        payload@.shape() != expected ==> (r matches Err(e) && e.expected == expected && e.received@
            == payload@),
{
    if payload.shape() == expected {
        Ok(payload)
    } else {
        Err(StateEntryError::from_any(expected, payload))
    }
}

/// The durable registry of state identities a runner may transition into.
///
/// Populated once before any runner exists; read-only thereafter.  The
/// completion sentinel can never be registered.
#[derive(Debug)]
pub struct StateMachine {
    ids: Vec<u64>,
}

impl StateMachine {
    /// The set of registered identities.
    pub closed spec fn regs(self) -> Set<u64> {
        self.ids@.to_set()
    }

    /// Registers the state identity `id`: a no-op if `id` is already
    /// registered or is the completion sentinel, under which no user state
    /// may stand.
    pub fn add_state(&mut self, id: u64)
        ensures
            id != COMPLETE_ID ==> final(self).regs() == old(self).regs().insert(id),
            id == COMPLETE_ID ==> final(self).regs() == old(self).regs(),
    {
        if id == COMPLETE_ID {
            return;
        }
        if !self.contains_id(id) {
            proof {
                old(self).ids@.lemma_push_to_set_commute(id);
            }
            self.ids.push(id);
        } else {
            proof {
                assert(self.regs() =~= old(self).regs().insert(id));
            }
        }
    }

    /// Unregisters the state identity `id`, reporting whether it was
    /// registered.
    pub fn remove_state(&mut self, id: u64) -> (r: bool)
        ensures
            final(self).regs() == old(self).regs().remove(id),
            r == old(self).regs().contains(id),
    {
        let found = self.contains_id(id);
        let ghost s0 = self.ids@;
        let mut kept: Vec<u64> = Vec::new();
        let n = self.ids.len();
        let mut i: usize = 0;
        while i < n
            invariant
                i <= n,
                self.ids@ == s0,
                n == s0.len(),
                kept@ == s0.take(i as int).filter(keeps(id)),
            decreases n - i,
        {
            proof {
                assert(s0.take(i + 1).drop_last() =~= s0.take(i as int));
                assert(s0.take(i + 1) =~= s0.take(i as int).push(s0[i as int]));
                s0.take(i as int).lemma_filter_push(s0[i as int], keeps(id));
            }
            let x = self.ids[i];
            if x != id {
                kept.push(x);
            }
            i += 1;
        }
        proof {
            assert(s0.take(n as int) =~= s0);
            lemma_filter_out_to_set(s0, id);
        }
        self.ids = kept;
        found
    }

    /// Creates a runner over this machine from the identity of its
    /// starting state, an initial context, and the starting state's income
    /// payload, whose shape the caller is responsible for.
    ///
    /// Returns `None` when `start_id` is not registered.
    pub fn runner<'a, S: State>(
        &'a self,
        initial_data: S::Data,
        start_id: u64,
        start: Payload,
    ) -> (r: Option<StateMachineRunner<'a, S>>)
        requires
            start@.shape() == S::income_spec(start_id),
        ensures
            self.regs().contains(start_id) ==> (r matches Some(runner) && runner@ == (RunnerView {
                regs: self.regs(),
                id: start_id,
                state: S::fresh_spec(start_id).init_spec(start@, initial_data),
                data: initial_data,
            })),
            !self.regs().contains(start_id) ==> r is None,
    {
        StateMachineRunner::new(self, initial_data, start_id, start)
    }

    /// Reports whether the identity `id` is registered.
    pub fn contains_id(&self, id: u64) -> (r: bool)
        ensures
            r == self.regs().contains(id),
    {
        let n = self.ids.len();
        let mut i: usize = 0;
        while i < n
            invariant
                i <= n,
                n == self.ids@.len(),
                forall|j: int| 0 <= j < i ==> self.ids@[j] != id,
            decreases n - i,
        {
            if self.ids[i] == id {
                proof {
                    assert(self.ids@.contains(id));
                }
                return true;
            }
            i += 1;
        }
        proof {
            assert(!self.ids@.contains(id));
        }
        false
    }
}

impl Default for StateMachine {
    /// A machine with nothing registered.
    fn default() -> (m: StateMachine)
        ensures
            m.regs() == Set::<u64>::empty(),
    {
        let m = StateMachine { ids: Vec::new() };
        proof {
            assert(m.regs() =~= Set::<u64>::empty());
        }
        m
    }
}

/// A live instance of a machine: the shared context, the active state
/// instance, and the active state's identity, drawing fresh states from a
/// borrowed registry.
///
/// A runner is consumed by value on every step and handed back inside the
/// outcome when the run may continue, so one runner value can never be
/// stepped twice or from two call sites.
pub struct StateMachineRunner<'a, S: State> {
    machine: &'a StateMachine,
    /// The shared context, exclusively mutable by the active state during
    /// its step.
    pub data: S::Data,
    state: S,
    state_id: u64,
}

/// The mathematical value of a runner: the identities it may transition
/// into, the active identity, the active instance, and the shared context.
#[verifier::ext_equal]
pub ghost struct RunnerView<S: State> {
    pub regs: Set<u64>,
    pub id: u64,
    pub state: S,
    pub data: S::Data,
}

impl<'a, S: State> View for StateMachineRunner<'a, S> {
    type V = RunnerView<S>;

    closed spec fn view(&self) -> RunnerView<S> {
        RunnerView {
            regs: self.machine.regs(),
            id: self.state_id,
            state: self.state,
            data: self.data,
        }
    }
}

impl<'a, S: State> StateMachineRunner<'a, S> {
    /// Creates a runner over `machine` that starts in the state registered
    /// under `start_id`, entered with the income payload `start`.
    ///
    /// Returns `None` when `start_id` is not registered.  That the payload's
    /// shape is the one the starting state declares is the caller's
    /// contract: this single entry point is the only place it is not
    /// checked at run time.
    pub fn new(machine: &'a StateMachine, data: S::Data, start_id: u64, start: Payload) -> (r:
        Option<StateMachineRunner<'a, S>>)
        requires
            start@.shape() == S::income_spec(start_id),
        ensures
            machine.regs().contains(start_id) ==> (r matches Some(runner) && runner@ == (RunnerView {
                regs: machine.regs(),
                id: start_id,
                state: S::fresh_spec(start_id).init_spec(start@, data),
                data,
            })),
            !machine.regs().contains(start_id) ==> r is None,
    {
        if !machine.contains_id(start_id) {
            return None;
        }
        let mut state = S::fresh(start_id);
        state.init(start, &data);
        Some(StateMachineRunner { machine, data, state, state_id: start_id })
    }
}

/// What one step of a runner can come to.
///
/// `Continue` and `Transition` hand the runner back; the other three are
/// terminal: `Complete` normally, with the final context, and the last two
/// fatally, with diagnostics of the wiring defect.
pub enum StepOutcome<'a, S: State> {
    /// The step's transition pointed back at the active state: the runner
    /// is unchanged, no entry hook ran, no payload was inspected.
    Continue { machine: StateMachineRunner<'a, S> },
    /// The runner moved into a registered destination whose entry check
    /// succeeded.
    Transition {
        machine: StateMachineRunner<'a, S>,
        start: String,
        transition: String,
        end: String,
    },
    /// The transition pointed at the completion sentinel: the run is over
    /// and the context is returned exactly as the last step left it.
    Complete { data: S::Data, start: String, transition: String },
    /// The transition pointed at an identity the registry never learned
    /// about; no instance of it was ever constructed.
    StateNotFound { start: String, transition: String, end: u64 },
    /// The destination resolved, but the payload's shape was not the one
    /// the destination declared; the payload is handed back unchanged.
    IncorrectTransition {
        start: String,
        transition: String,
        end: String,
        expected_type: Shape,
        received_data: Payload,
    },
}

/// The mathematical value of a step's outcome.
pub ghost enum StepModel<S: State> {
    Continue { id: u64, state: S, data: S::Data },
    Transition {
        id: u64,
        state: S,
        data: S::Data,
        start: Seq<char>,
        transition: Seq<char>,
        end: Seq<char>,
    },
    Complete { data: S::Data, start: Seq<char>, transition: Seq<char> },
    StateNotFound { start: Seq<char>, transition: Seq<char>, end: u64 },
    IncorrectTransition {
        start: Seq<char>,
        transition: Seq<char>,
        end: Seq<char>,
        expected_type: Shape,
        received_data: PayloadView,
    },
}

/// The step algorithm, stated as a function of the registered identities
/// and the runner's three constituents.
///
/// The active state handles one step, mutating itself and the context and
/// returning a transition.  A destination equal to the active identity
/// continues in place, without the entry hook and without touching the
/// payload.  The completion sentinel ends the run with the context as the
/// step left it.  Otherwise the destination must be registered, a fresh
/// instance of it is built, and the payload's shape is checked against the
/// declared income shape at the entry boundary: a match enters the
/// destination through its entry hook, a mismatch is fatal and returns the
/// payload unchanged.
pub open spec fn step_model<S: State>(v: RunnerView<S>) -> StepModel<S> {
    let RunnerView { regs, id, state, data } = v;
    let (s2, d2, o) = state.handle_spec(data);
    if o.dest == id {
        StepModel::Continue { id, state: s2, data: d2 }
    } else if o.dest == COMPLETE_ID {
        StepModel::Complete { data: d2, start: s2.name_spec(), transition: o.name }
    } else if !regs.contains(o.dest) {
        StepModel::StateNotFound { start: s2.name_spec(), transition: o.name, end: o.dest }
    } else {
        let entered = S::fresh_spec(o.dest);
        if o.payload.shape() == S::income_spec(o.dest) {
            StepModel::Transition {
                id: o.dest,
                state: entered.init_spec(o.payload, d2),
                data: d2,
                start: s2.name_spec(),
                transition: o.name,
                end: entered.name_spec(),
            }
        } else {
            StepModel::<S>::IncorrectTransition {
                start: s2.name_spec(),
                transition: o.name,
                end: entered.name_spec(),
                expected_type: S::income_spec(o.dest),
                received_data: o.payload,
            }
        }
    }
}

/// Whether an executable step outcome is the one the model calls for, over
/// a runner whose registered identities are `regs`.
pub open spec fn matches_model<'a, S: State>(
    r: StepOutcome<'a, S>,
    regs: Set<u64>,
    m: StepModel<S>,
) -> bool {
    match m {
        StepModel::Continue { id, state, data } => match r {
            StepOutcome::Continue { machine } => machine@ == (RunnerView { regs, id, state, data }),
            _ => false,
        },
        StepModel::Transition { id, state, data, start, transition, end } => match r {
            StepOutcome::Transition { machine, start: st, transition: tr, end: en } => machine@
                == (RunnerView { regs, id, state, data }) && st@ == start && tr@ == transition && en@
                == end,
            _ => false,
        },
        StepModel::Complete { data, start, transition } => match r {
            StepOutcome::Complete { data: d, start: st, transition: tr } => d == data && st@
                == start && tr@ == transition,
            _ => false,
        },
        StepModel::StateNotFound { start, transition, end } => match r {
            StepOutcome::StateNotFound { start: st, transition: tr, end: en } => st@ == start && tr@
                == transition && en == end,
            _ => false,
        },
        StepModel::IncorrectTransition { start, transition, end, expected_type, received_data } => match r {
            StepOutcome::IncorrectTransition {
                start: st,
                transition: tr,
                end: en,
                expected_type: ex,
                received_data: re,
            } => st@ == start && tr@ == transition && en@ == end && ex == expected_type && re@
                == received_data,
            _ => false,
        },
    }
}

impl<'a, S: State> StateMachineRunner<'a, S> {
    /// Performs one step of the machine, consuming the runner.
    ///
    /// The outcome is exactly what [`step_model`] calls for on the runner's
    /// registered identities, active identity, active state, and context.
    pub fn step(self) -> (r: StepOutcome<'a, S>)
        ensures
            matches_model(r, self@.regs, step_model(self@)),
    {
        let mut this = self;
        let outcome = this.state.handle(&mut this.data).into_outcome();
        if outcome.dest == this.state_id {
            return StepOutcome::Continue { machine: this };
        }
        let start = this.state.name();
        let OutcomeData { dest, payload, name: transition } = outcome;
        this.state_id = dest;
        if dest == COMPLETE_ID {
            return StepOutcome::Complete { data: this.data, start, transition };
        }
        if !this.machine.contains_id(dest) {
            return StepOutcome::StateNotFound { start, transition, end: dest };
        }
        this.state = S::fresh(dest);
        let end = this.state.name();
        let expected = S::income(dest);
        match entry_check(expected, payload) {
            Ok(p) => {
                this.state.init(p, &this.data);
                StepOutcome::Transition { machine: this, start, transition, end }
            },
            Err(e) => StepOutcome::IncorrectTransition {
                start,
                transition,
                end,
                expected_type: e.expected,
                received_data: e.received,
            },
        }
    }
}

impl<'a, S: State> StepOutcome<'a, S> {
    /// Reports whether this outcome is worth telling a reader about:
    /// `false` if and only if it is `Continue`.
    pub fn is_notable(&self) -> (r: bool)
        ensures
            r == !(*self matches StepOutcome::Continue { machine: _ }),
    {
        match self {
            StepOutcome::Continue { .. } => false,
            _ => true,
        }
    }

    /// Collapses the outcome for a driving loop: the runner to keep
    /// stepping, or the run's result — the final context on completion,
    /// nothing on a wiring defect.
    pub fn into_result(self) -> (r: Result<StateMachineRunner<'a, S>, Option<S::Data>>)
        ensures
            (match self {
                StepOutcome::Continue { machine } => r matches Ok(m) && m == machine,
                StepOutcome::Transition { machine, .. } => r matches Ok(m) && m == machine,
                StepOutcome::Complete { data, .. } => r matches Err(d) && (d matches Some(dd) && dd
                    == data),
                StepOutcome::StateNotFound { .. } => r matches Err(d) && d is None,
                StepOutcome::IncorrectTransition { .. } => r matches Err(d) && d is None,
            }),
    {
        match self {
            StepOutcome::Continue { machine } => Ok(machine),
            StepOutcome::Transition { machine, .. } => Ok(machine),
            StepOutcome::Complete { data, .. } => Err(Some(data)),
            StepOutcome::StateNotFound { .. } => Err(None),
            StepOutcome::IncorrectTransition { .. } => Err(None),
        }
    }
}

/// The decimal digit character for `d`.
pub open spec fn digit_char(d: u64) -> char {
    if d == 0 {
        '0'
    } else if d == 1 {
        '1'
    } else if d == 2 {
        '2'
    } else if d == 3 {
        '3'
    } else if d == 4 {
        '4'
    } else if d == 5 {
        '5'
    } else if d == 6 {
        '6'
    } else if d == 7 {
        '7'
    } else if d == 8 {
        '8'
    } else {
        '9'
    }
}

/// The decimal rendering of `n`, most significant digit first.
pub open spec fn dec_str(n: u64) -> Seq<char>
    decreases n,
{
    if n < 10 {
        seq![digit_char(n)]
    } else {
        dec_str(n / 10).push(digit_char(n % 10))
    }
}

/// One decimal digit as text.
fn digit_str(d: u64) -> (s: &'static str)
    requires
        d < 10,
    ensures
        s@ == seq![digit_char(d)],
{
    let s = if d == 0 {
        "0"
    } else if d == 1 {
        "1"
    } else if d == 2 {
        "2"
    } else if d == 3 {
        "3"
    } else if d == 4 {
        "4"
    } else if d == 5 {
        "5"
    } else if d == 6 {
        "6"
    } else if d == 7 {
        "7"
    } else if d == 8 {
        "8"
    } else {
        "9"
    };
    proof {
        reveal_strlit("0");
        reveal_strlit("1");
        reveal_strlit("2");
        reveal_strlit("3");
        reveal_strlit("4");
        reveal_strlit("5");
        reveal_strlit("6");
        reveal_strlit("7");
        reveal_strlit("8");
        reveal_strlit("9");
        assert(s@ =~= seq![digit_char(d)]);
    }
    s
}

/// Renders an identity in decimal, for diagnostics.
pub fn u64_to_string(n: u64) -> (s: String)
    ensures
        s@ == dec_str(n),
    decreases n,
{
    if n < 10 {
        digit_str(n).to_owned()
    } else {
        let mut s = u64_to_string(n / 10);
        s.append(digit_str(n % 10));
        proof {
            assert(s@ =~= dec_str(n));
        }
        s
    }
}

/// Relies on `std::io::Stdout::write_fmt`, reached through `writeln!`:
/// prints one line to standard output.
#[verifier::external_body]
fn print_line(s: &str) {
    let _ = writeln!(std::io::stdout(), "{}", s);
}

impl<'a, S: State> StepOutcome<'a, S> {
    /// The human-readable description of this outcome: empty for
    /// `Continue`, one line naming source, transition, and destination for
    /// every other outcome.
    pub open spec fn describe_spec(self) -> Seq<char> {
        match self {
            StepOutcome::Continue { .. } => Seq::<char>::empty(),
            StepOutcome::Transition { start, transition, end, .. } => start@ + " --["@
                + transition@ + "]--> "@ + end@,
            StepOutcome::Complete { start, transition, .. } => start@ + " --["@ + transition@
                + "]--> END"@,
            StepOutcome::StateNotFound { start, transition, end } => start@ + " --["@ + transition@
                + "]--> "@ + dec_str(end) + "? ABORT! Type "@ + dec_str(end)
                + " does not exist in the state machine"@,
            StepOutcome::IncorrectTransition {
                start,
                transition,
                end,
                expected_type,
                received_data,
            } => start@ + " --["@ + transition@ + "!]--> "@ + end@ + ": "@ + end@
                + " expected incoming data of shape "@ + expected_type.name_spec()
                + " but received data of shape "@ + received_data@.shape().name_spec()
                + " from transition "@ + transition@,
        }
    }

    /// Renders this outcome for a log line.
    pub fn describe(&self) -> (s: String)
        ensures
            s@ == self.describe_spec(),
    {
        match self {
            StepOutcome::Continue { .. } => {
                let s = String::new();
                proof {
                    assert(s@ =~= self.describe_spec());
                }
                s
            },
            StepOutcome::Transition { start, transition, end, .. } => {
                let mut s = start.clone();
                s.append(" --[");
                s.append(transition.as_str());
                s.append("]--> ");
                s.append(end.as_str());
                s
            },
            StepOutcome::Complete { start, transition, .. } => {
                let mut s = start.clone();
                s.append(" --[");
                s.append(transition.as_str());
                s.append("]--> END");
                s
            },
            StepOutcome::StateNotFound { start, transition, end } => {
                let id_text = u64_to_string(*end);
                let mut s = start.clone();
                s.append(" --[");
                s.append(transition.as_str());
                s.append("]--> ");
                s.append(id_text.as_str());
                s.append("? ABORT! Type ");
                s.append(id_text.as_str());
                s.append(" does not exist in the state machine");
                s
            },
            StepOutcome::IncorrectTransition {
                start,
                transition,
                end,
                expected_type,
                received_data,
            } => {
                let mut s = start.clone();
                s.append(" --[");
                s.append(transition.as_str());
                s.append("!]--> ");
                s.append(end.as_str());
                s.append(": ");
                s.append(end.as_str());
                s.append(" expected incoming data of shape ");
                s.append(expected_type.name());
                s.append(" but received data of shape ");
                s.append(received_data.shape().name());
                s.append(" from transition ");
                s.append(transition.as_str());
                s
            },
        }
    }

    /// Prints the description, unless there is nothing to tell: a
    /// `Continue` stays quiet.
    pub fn print_if_notable(&self) {
        if self.is_notable() {
            let line = self.describe();
            print_line(line.as_str());
        }
    }
}

/// One continuable step: the step algorithm on `v` keeps the run alive —
/// in place or through an ordinary transition — and leaves the runner at
/// `w`.  The registry never changes.
pub open spec fn advances<S: State>(v: RunnerView<S>, w: RunnerView<S>) -> bool {
    w.regs == v.regs && match step_model(v) {
        StepModel::Continue { id, state, data } => w.id == id && w.state == state && w.data == data,
        StepModel::Transition { id, state, data, .. } => w.id == id && w.state == state && w.data
            == data,
        _ => false,
    }
}

/// The runner value `w` is what `n` continuable steps make of `v`.
pub open spec fn reaches<S: State>(v: RunnerView<S>, w: RunnerView<S>, n: nat) -> bool
    decreases n,
{
    if n == 0 {
        w == v
    } else {
        exists|m: RunnerView<S>| #[trigger] advances(v, m) && reaches(m, w, (n - 1) as nat)
    }
}

/// A chain of continuable steps grows at its end: what `n` steps reach,
/// one more continuable step extends to a chain of `n + 1`.
pub proof fn lemma_reaches_extend<S: State>(
    u: RunnerView<S>,
    v: RunnerView<S>,
    w: RunnerView<S>,
    n: nat,
)
    requires
        reaches(u, v, n),
        advances(v, w),
    ensures
        reaches(u, w, n + 1),
    decreases n,
{
    if n == 0 {
        assert(advances(u, w) && reaches(w, w, 0));
    } else {
        let m = choose|m: RunnerView<S>| #[trigger] advances(u, m) && reaches(m, v, (n - 1) as nat);
        lemma_reaches_extend(m, v, w, (n - 1) as nat);
        assert(advances(u, m) && reaches(m, w, n));
    }
}

/// What a finished run, begun at the runner value `start`, may report:
/// `Some` of a context that some chain of continuable steps carried to a
/// completing step, or `None` when such a chain ended at a wiring defect.
pub open spec fn run_result<S: State>(start: RunnerView<S>, d: Option<S::Data>) -> bool {
    match d {
        Some(dd) => exists|v: RunnerView<S>, n: nat|
            #[trigger] reaches(start, v, n) && (step_model(v) matches StepModel::Complete {
                data,
                ..
            } && data == dd),
        None => exists|v: RunnerView<S>, n: nat|
            #[trigger] reaches(start, v, n) && (step_model(v) matches StepModel::StateNotFound {
                ..
            } || step_model(v) matches StepModel::IncorrectTransition { .. }),
    }
}

impl<'a, S: State> StateMachineRunner<'a, S> {
    /// Runs the machine until it completes, fails, or exhausts a step
    /// budget.
    ///
    /// Repeatedly steps, keeping the runner through every `Continue` and
    /// `Transition`, until a terminal outcome: `Ok` of the final context on
    /// `Complete`, `Ok` of nothing on a wiring defect.  Liveness beyond
    /// self-transition is the states' affair, not the engine's, so a run
    /// whose logic never transitions away would never end: after
    /// `max_steps` continuable steps the runner is handed back in `Err`,
    /// still live.
    pub fn run_to_completion(self, max_steps: u64) -> (r: Result<
        Option<S::Data>,
        StateMachineRunner<'a, S>,
    >)
        ensures
            r matches Ok(d) ==> run_result(self@, d),
            r matches Err(runner) ==> reaches(self@, runner@, max_steps as nat),
    {
        let ghost start = self@;
        let mut cur: Option<StateMachineRunner<'a, S>> = Some(self);
        let mut done: Option<Option<S::Data>> = None;
        let mut i: u64 = 0;
        while i < max_steps && done.is_none()
            invariant
                i <= max_steps,
                done is None ==> (cur matches Some(c) && reaches(start, c@, i as nat)),
                done matches Some(d) ==> run_result(start, d),
            decreases max_steps - i, (if done is None {
                1int
            } else {
                0int
            }),
        {
            let runner = match cur {
                Some(c) => c,
                None => unreached(),
            };
            let ghost v = runner@;
            let out = runner.step();
            match out.into_result() {
                Ok(next) => {
                    proof {
                        assert(advances(v, next@));
                        lemma_reaches_extend(start, v, next@, i as nat);
                    }
                    cur = Some(next);
                    i = i + 1;
                },
                Err(d) => {
                    proof {
                        assert(reaches(start, v, i as nat));
                        assert(run_result(start, d));
                    }
                    done = Some(d);
                    cur = None;
                },
            }
        }
        match done {
            Some(d) => Ok(d),
            None => match cur {
                Some(c) => Err(c),
                None => unreached(),
            },
        }
    }

    /// Runs the machine as [`Self::run_to_completion`] does, and prints the
    /// description of every notable outcome on the way — purely
    /// observational, with no effect on control flow.
    pub fn run_to_completion_verbose(self, max_steps: u64) -> (r: Result<
        Option<S::Data>,
        StateMachineRunner<'a, S>,
    >)
        ensures
            r matches Ok(d) ==> run_result(self@, d),
            r matches Err(runner) ==> reaches(self@, runner@, max_steps as nat),
    {
        let ghost start = self@;
        let mut cur: Option<StateMachineRunner<'a, S>> = Some(self);
        let mut done: Option<Option<S::Data>> = None;
        let mut i: u64 = 0;
        while i < max_steps && done.is_none()
            invariant
                i <= max_steps,
                done is None ==> (cur matches Some(c) && reaches(start, c@, i as nat)),
                done matches Some(d) ==> run_result(start, d),
            decreases max_steps - i, (if done is None {
                1int
            } else {
                0int
            }),
        {
            let runner = match cur {
                Some(c) => c,
                None => unreached(),
            };
            let ghost v = runner@;
            let out = runner.step();
            out.print_if_notable();
            match out.into_result() {
                Ok(next) => {
                    proof {
                        assert(advances(v, next@));
                        lemma_reaches_extend(start, v, next@, i as nat);
                    }
                    cur = Some(next);
                    i = i + 1;
                },
                Err(d) => {
                    proof {
                        assert(reaches(start, v, i as nat));
                        assert(run_result(start, d));
                    }
                    done = Some(d);
                    cur = None;
                },
            }
        }
        match done {
            Some(d) => Ok(d),
            None => match cur {
                Some(c) => Err(c),
                None => unreached(),
            },
        }
    }
}

/// Self-transition is free.  Whenever a step's transition points back at
/// the active identity, the machine continues with exactly the instance
/// and context the handler left behind: the destination's entry hook is
/// never invoked and the transition's payload is never looked at — the
/// conclusion holds whatever the payload is, declared shape or not.
pub proof fn lemma_self_transition_is_free<S: State>(v: RunnerView<S>)
    requires
        v.state.handle_spec(v.data).2.dest == v.id,
    ensures
        ({
            let (s2, d2, o) = v.state.handle_spec(v.data);
            step_model(v) == (StepModel::Continue { id: v.id, state: s2, data: d2 })
        }),
{
}

/// The completion sentinel ends the run with the context exactly as the
/// step's own handler last left it: the engine never alters the context on
/// the way out.
pub proof fn lemma_sentinel_completes<S: State>(v: RunnerView<S>)
    requires
        v.state.handle_spec(v.data).2.dest == COMPLETE_ID,
        v.id != COMPLETE_ID,
    ensures
        ({
            let (s2, d2, o) = v.state.handle_spec(v.data);
            step_model(v) == (StepModel::<S>::Complete {
                data: d2,
                start: s2.name_spec(),
                transition: o.name,
            })
        }),
{
}

/// A transition toward an unregistered identity always fails as
/// `StateNotFound`, surfacing the raw identity itself: no instance of the
/// destination is ever constructed, so no display name exists for it.
pub proof fn lemma_unregistered_is_fatal<S: State>(v: RunnerView<S>)
    requires
        ({
            let o = v.state.handle_spec(v.data).2;
            o.dest != v.id && o.dest != COMPLETE_ID && !v.regs.contains(o.dest)
        }),
    ensures
        ({
            let (s2, d2, o) = v.state.handle_spec(v.data);
            step_model(v) == (StepModel::<S>::StateNotFound {
                start: s2.name_spec(),
                transition: o.name,
                end: o.dest,
            })
        }),
{
}

/// At a registered destination, entry is decided by the runtime shape
/// check alone.  A payload of the declared income shape always enters: the
/// fresh instance receives it through the entry hook and the run goes on.
/// Any other shape always fails as `IncorrectTransition`, carrying that
/// exact payload unchanged beside the declared shape.
pub proof fn lemma_entry_is_shape_checked<S: State>(v: RunnerView<S>)
    requires
        ({
            let o = v.state.handle_spec(v.data).2;
            o.dest != v.id && o.dest != COMPLETE_ID && v.regs.contains(o.dest)
        }),
    ensures
        ({
            let (s2, d2, o) = v.state.handle_spec(v.data);
            let entered = S::fresh_spec(o.dest);
            &&& (o.payload.shape() == S::income_spec(o.dest) ==> step_model(v) == (
            StepModel::Transition {
                id: o.dest,
                state: entered.init_spec(o.payload, d2),
                data: d2,
                start: s2.name_spec(),
                transition: o.name,
                end: entered.name_spec(),
            }))
            &&& (o.payload.shape() != S::income_spec(o.dest) ==> step_model(v) == (
            StepModel::<S>::IncorrectTransition {
                start: s2.name_spec(),
                transition: o.name,
                end: entered.name_spec(),
                expected_type: S::income_spec(o.dest),
                received_data: o.payload,
            }))
        }),
{
}

/// The predicate that keeps every identity but `id`.
spec fn keeps(id: u64) -> spec_fn(u64) -> bool {
    |x: u64| x != id
}

/// Filtering `id` out of a sequence leaves, as a set, the sequence's set
/// without `id`.
proof fn lemma_filter_out_to_set(s: Seq<u64>, id: u64)
    ensures
        s.filter(keeps(id)).to_set() == s.to_set().remove(id),
{
    broadcast use vstd::seq_lib::group_filter_ensures;

    let p = keeps(id);
    assert forall|a: u64| s.filter(p).to_set().contains(a) implies s.to_set().remove(id).contains(
        a,
    ) by {
        s.lemma_filter_contains_rev(p, a);
        let i = choose|i: int| 0 <= i < s.filter(p).len() && s.filter(p)[i] == a;
        assert(p(s.filter(p)[i]));
    };
    assert forall|a: u64| s.to_set().remove(id).contains(a) implies s.filter(p).to_set().contains(
        a,
    ) by {
        let i = choose|i: int| 0 <= i < s.len() && s[i] == a;
        s.lemma_filter_contains(p, i);
    };
    assert(s.filter(p).to_set() =~= s.to_set().remove(id));
}

} // verus!
