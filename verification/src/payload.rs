//! Tagged payloads carried by transitions.
//!
//! A transition hands its destination state an opaque value.  The engine
//! cannot know statically which value shape a destination expects, so every
//! payload carries its shape with it, and every state declares the shape it
//! requires at entry.  The two are compared at the entry boundary, and only
//! there.

use vstd::prelude::*;

verus! {

/// The shape of a payload: what a state may declare as its required income.
#[derive(Clone, Copy, Debug, PartialEq, Eq, Structural)]
pub enum Shape {
    Unit,
    Int,
    Text,
}

impl Shape {
    /// The display name of a shape, for diagnostics.
    pub open spec fn name_spec(self) -> Seq<char> {
        match self {
            Shape::Unit => "Unit"@,
            Shape::Int => "Int"@,
            Shape::Text => "Text"@,
        }
    }

    /// The display name of a shape, for diagnostics.
    pub fn name(&self) -> (n: &'static str)
        ensures
            n@ == self.name_spec(),
    {
        match self {
            Shape::Unit => "Unit",
            Shape::Int => "Int",
            Shape::Text => "Text",
        }
    }
}

/// The mathematical value of a payload.
pub ghost enum PayloadView {
    Unit,
    Int(i64),
    Text(Seq<char>),
}

impl PayloadView {
    /// The shape a payload value has.
    pub open spec fn shape(self) -> Shape {
        match self {
            PayloadView::Unit => Shape::Unit,
            PayloadView::Int(_) => Shape::Int,
            PayloadView::Text(_) => Shape::Text,
        }
    }
}

/// An opaque value carried by a transition to its destination's entry hook.
#[derive(Clone, Debug, PartialEq, Eq)]
pub enum Payload {
    Unit,
    Int(i64),
    Text(String),
}

impl View for Payload {
    type V = PayloadView;

    open spec fn view(&self) -> PayloadView {
        match self {
            Payload::Unit => PayloadView::Unit,
            Payload::Int(i) => PayloadView::Int(*i),
            Payload::Text(s) => PayloadView::Text(s@),
        }
    }
}

impl Payload {
    /// The shape of this payload, compared at a state's entry boundary
    /// against the shape the state declares.
    pub fn shape(&self) -> (s: Shape)
        ensures
            s == self@.shape(),
    {
        match self {
            Payload::Unit => Shape::Unit,
            Payload::Int(_) => Shape::Int,
            Payload::Text(_) => Shape::Text,
        }
    }
}

} // verus!
