//! The transition protocol: what a state's step result must answer.
//!
//! A transition value names its destination identity, surrenders an opaque
//! payload for the destination's entry hook, and carries a diagnostic name.
//! Two canonical carriers exist: the unit value `()` for the completion
//! sentinel, and [`OutcomeData`] for an ordinary transition.  A state whose
//! step wants a multi-way enumeration of its own implements [`IntoOutcome`]
//! for it, mapping each arm to one of the carriers.

use crate::payload::{Payload, PayloadView};
use vstd::pervasive::arbitrary;
use vstd::prelude::*;

verus! {

/// The reserved identity meaning "no further state; run complete".
///
/// No user state may be registered under it, and a transition toward it
/// always ends the run, returning the context to the caller.
pub const COMPLETE_ID: u64 = 0;

/// The mathematical value of a transition: destination identity, payload,
/// and diagnostic name.
pub ghost struct OutcomeView {
    pub dest: u64,
    pub payload: PayloadView,
    pub name: Seq<char>,
}

/// The concrete carrier of a transition toward a destination state.
///
/// `dest` is the destination's identity, `payload` the income value handed
/// to its entry hook, and `name` a diagnostic label with no effect on
/// control flow.
#[derive(Clone, Debug, PartialEq, Eq)]
pub struct OutcomeData {
    pub dest: u64,
    pub payload: Payload,
    pub name: String,
}

impl View for OutcomeData {
    type V = OutcomeView;

    open spec fn view(&self) -> OutcomeView {
        OutcomeView { dest: self.dest, payload: self.payload@, name: self.name@ }
    }
}

impl OutcomeData {
    /// A transition toward `dest` carrying `payload`, under a default
    /// diagnostic name.
    pub fn new(dest: u64, payload: Payload) -> (o: OutcomeData)
        ensures
            o@ == (OutcomeView { dest, payload: payload@, name: "(Transition)"@ }),
    {
        OutcomeData { dest, payload, name: "(Transition)".to_owned() }
    }

    /// A transition toward `dest` carrying `payload`, under a caller-chosen
    /// diagnostic name.
    pub fn with_name(dest: u64, payload: Payload, name: String) -> (o: OutcomeData)
        ensures
            o@ == (OutcomeView { dest, payload: payload@, name: name@ }),
    {
        OutcomeData { dest, payload, name }
    }
}

/// The contract a transition value must satisfy: destination identity, a
/// consuming extraction of its payload, and a diagnostic name, each pinned
/// to a spec-level counterpart.
pub trait Outcome: Sized {
    /// The identity of the destination state.
    ///
    /// The default, like that of the other spec operations here, pins
    /// nothing down: an implementation meant to be reasoned about
    /// overrides it.
    open spec fn state_type_spec(self) -> u64 {
        arbitrary()
    }

    /// The payload handed to the destination's entry hook.
    open spec fn data_spec(self) -> PayloadView {
        arbitrary()
    }

    /// The diagnostic name of the transition.
    open spec fn name_spec(self) -> Seq<char> {
        arbitrary()
    }

    /// The identity of the next state.
    fn state_type(&self) -> (id: u64)
        ensures
            id == self.state_type_spec(),
    ;

    /// Surrenders the income payload for the destination's entry hook.
    ///
    /// On a self-transition this is never called, so what it would return
    /// there never matters.
    fn data(self) -> (p: Payload)
        ensures
            p@ == self.data_spec(),
    ;

    /// A diagnostic name, never used for control flow.
    fn name(&self) -> (n: String)
        ensures
            n@ == self.name_spec(),
    ;
}

/// Conversion of a state's ad hoc transition value into the canonical
/// carrier.  Blanket-implemented for every [`Outcome`], so a state with a
/// single possible transition can return a carrier directly.
pub trait IntoOutcome: Sized {
    /// The transition this value converts into.
    ///
    /// The default pins nothing down: an implementation meant to be
    /// reasoned about overrides it.
    open spec fn into_outcome_spec(self) -> OutcomeView {
        arbitrary()
    }

    /// Converts into the canonical transition carrier.
    fn into_outcome(self) -> (o: OutcomeData)
        ensures
            o@ == self.into_outcome_spec(),
    ;
}

impl<T: Outcome> IntoOutcome for T {
    open spec fn into_outcome_spec(self) -> OutcomeView {
        OutcomeView {
            dest: self.state_type_spec(),
            payload: self.data_spec(),
            name: self.name_spec(),
        }
    }

    fn into_outcome(self) -> (o: OutcomeData) {
        let dest = self.state_type();
        let name = self.name();
        let payload = self.data();
        OutcomeData { dest, payload, name }
    }
}

impl Outcome for OutcomeData {
    open spec fn state_type_spec(self) -> u64 {
        self.dest
    }

    open spec fn data_spec(self) -> PayloadView {
        self.payload@
    }

    open spec fn name_spec(self) -> Seq<char> {
        self.name@
    }

    fn state_type(&self) -> u64 {
        self.dest
    }

    fn data(self) -> Payload {
        self.payload
    }

    fn name(&self) -> String {
        self.name.clone()
    }
}

/// The singular success endpoint of every machine: transitioning "to `()`"
/// completes the run.  Its payload is always empty and its name is always
/// `"(Complete)"`.
impl Outcome for () {
    open spec fn state_type_spec(self) -> u64 {
        COMPLETE_ID
    }

    open spec fn data_spec(self) -> PayloadView {
        PayloadView::Unit
    }

    open spec fn name_spec(self) -> Seq<char> {
        "(Complete)"@
    }

    fn state_type(&self) -> u64 {
        COMPLETE_ID
    }

    fn data(self) -> Payload {
        Payload::Unit
    }

    fn name(&self) -> String {
        "(Complete)".to_owned()
    }
}

/// A transition from a state to itself, structurally carrying no payload at
/// all: the engine never asks a self-transition for one.
#[derive(Clone, Copy, Debug, PartialEq, Eq, Structural)]
pub struct ContinueOutcome {
    pub dest: u64,
}

impl ContinueOutcome {
    /// A self-transition toward the state registered under `dest`.
    pub fn new(dest: u64) -> (o: ContinueOutcome)
        ensures
            o.dest == dest,
    {
        ContinueOutcome { dest }
    }
}

impl Outcome for ContinueOutcome {
    open spec fn state_type_spec(self) -> u64 {
        self.dest
    }

    open spec fn data_spec(self) -> PayloadView {
        PayloadView::Unit
    }

    open spec fn name_spec(self) -> Seq<char> {
        "(Continue)"@
    }

    fn state_type(&self) -> u64 {
        self.dest
    }

    fn data(self) -> Payload {
        Payload::Unit
    }

    fn name(&self) -> String {
        "(Continue)".to_owned()
    }
}

} // verus!
