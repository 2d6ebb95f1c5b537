//! The state a dialogue can be in, and its abstract model.
//!
//! A dialogue walks a closed tagged union of states: it starts by awaiting
//! the counterpart's name and then awaits the counterpart's age, carrying the
//! name collected so far. The union is closed so that dispatch over it is
//! exhaustive at compile time; a state unknown to the program cannot arise.
use vstd::prelude::*;

verus! {

/// The state of one dialogue: what it waits for next, plus the data
/// collected so far.
#[derive(Debug)]
pub enum StateValue {
    /// The dialogue waits for the counterpart's name. This is the initial
    /// state, the one a conversation without a stored entry is in.
    AwaitingName,
    /// The dialogue waits for the counterpart's age, the name already
    /// collected.
    AwaitingAge { name: String },
}

/// The abstract model of a [`StateValue`].
pub enum StateView {
    /// Models [`StateValue::AwaitingName`].
    AwaitingName,
    /// Models [`StateValue::AwaitingAge`].
    AwaitingAge { name: Seq<char> },
}

impl View for StateValue {
    type V = StateView;

    open spec fn view(&self) -> StateView {
        match self {
            StateValue::AwaitingName => StateView::AwaitingName,
            StateValue::AwaitingAge { name } => StateView::AwaitingAge { name: name@ },
        }
    }
}

impl PartialEq for StateValue {
    fn eq(&self, other: &StateValue) -> (r: bool) {
        match (self, other) {
            (StateValue::AwaitingName, StateValue::AwaitingName) => true,
            (StateValue::AwaitingAge { name: a }, StateValue::AwaitingAge { name: b }) => *a == *b,
            _ => false,
        }
    }
}

impl vstd::std_specs::cmp::PartialEqSpecImpl for StateValue {
    open spec fn obeys_eq_spec() -> bool {
        true
    }

    open spec fn eq_spec(&self, other: &StateValue) -> bool {
        self@ == other@
    }
}

/// The designated initial state: the one a conversation is in before any
/// entry has been stored for it.
pub open spec fn initial_state() -> StateView {
    StateView::AwaitingName
}

impl StateValue {
    /// Returns the initial state.
    pub fn initial() -> (r: Self)
        ensures
            r@ == initial_state(),
    {
        StateValue::AwaitingName
    }
}

/// The wire shape of a state: the one optional field that distinguishes the
/// variants. Serializer strategies encode exactly this value, so that the
/// byte format stays a pure question of the strategy.
pub open spec fn wire_of(s: StateView) -> Option<Seq<char>> {
    match s {
        StateView::AwaitingName => None,
        StateView::AwaitingAge { name } => Some(name),
    }
}

/// The state a wire value denotes. Total: every well-formed wire value is a
/// state, so deserialization fails only on malformed bytes.
pub open spec fn state_of_wire(w: Option<Seq<char>>) -> StateView {
    match w {
        None => StateView::AwaitingName,
        Some(name) => StateView::AwaitingAge { name },
    }
}

/// The wire shape loses nothing: reading a state's wire value back gives the
/// same state.
pub proof fn lemma_wire_round_trip(s: StateView)
    ensures
        state_of_wire(wire_of(s)) == s,
{
}

/// Returns the wire value of a state.
pub fn to_wire(v: &StateValue) -> (r: Option<String>)
    ensures
        r.deep_view() == wire_of(v@),
{
    match v {
        StateValue::AwaitingName => None,
        StateValue::AwaitingAge { name } => Some(name.clone()),
    }
}

/// Rebuilds a state from its wire value.
pub fn from_wire(w: Option<String>) -> (r: StateValue)
    ensures
        r@ == state_of_wire(w.deep_view()),
{
    match w {
        None => StateValue::AwaitingName,
        Some(name) => StateValue::AwaitingAge { name },
    }
}

/// What one message-processing cycle decides: either the dialogue goes on in
/// a new state, or it is complete and its entry must be removed.
pub enum TransitionResult {
    /// The dialogue continues in the given state.
    Next(StateValue),
    /// The dialogue is complete.
    End,
}

/// The abstract model of a [`TransitionResult`].
pub enum TransitionView {
    /// Models [`TransitionResult::Next`].
    Next(StateView),
    /// Models [`TransitionResult::End`].
    End,
}

impl View for TransitionResult {
    type V = TransitionView;

    open spec fn view(&self) -> TransitionView {
        match self {
            TransitionResult::Next(v) => TransitionView::Next(v@),
            TransitionResult::End => TransitionView::End,
        }
    }
}

} // verus!
