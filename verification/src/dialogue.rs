//! The dialogue handle: one message-processing cycle, and the transition
//! engine it drives.
//!
//! A cycle loads the conversation's stored state (a missing entry means the
//! initial state), dispatches the handler registered for that state's
//! variant, and writes the outcome back: the next state on `Next`, removal
//! of the entry on `End`. Every error aborts only the current cycle and
//! leaves storage exactly as it was before the failing step.
use vstd::prelude::*;

use crate::errors::DialogueError;
use crate::serializer::Serializer;
use crate::state::StateValue;
use crate::state::StateView;
use crate::state::TransitionResult;
use crate::state::TransitionView;
use crate::state::initial_state;
use crate::state::lemma_wire_round_trip;
use crate::state::state_of_wire;
use crate::state::wire_of;
use crate::storage::ConversationId;
use crate::storage::Storage;
use crate::storage::spec_get;

verus! {

/// The transition engine: one pure transition per state variant, dispatched
/// by the variant's tag. The union of states is closed, so dispatch is
/// exhaustive at compile time and a state without a handler cannot arise.
pub trait Handler: Sized {
    /// What the handler decides for a state and an incoming message: the
    /// transition, or `None` when the handler fails on that input.
    spec fn next(&self, s: StateView, msg: Seq<char>) -> Option<TransitionView>;

    /// Dispatches to the transition for the state's variant. Pure: no side
    /// effects, in particular no storage access.
    fn handle(&self, s: &StateValue, msg: &str) -> (r: Result<TransitionResult, DialogueError>)
        ensures
            match self.next(s@, msg@) {
                Some(t) => r matches Ok(x) && x@ == t,
                None => r == Err::<TransitionResult, DialogueError>(DialogueError::HandlerError),
            },
    ;
}

/// The state a cycle dispatches on: the stored entry's state, the initial
/// state when no entry is stored, or `None` when the entry is malformed.
pub open spec fn loaded_state<Z: Serializer>(
    z: Z,
    m: Map<ConversationId, Seq<u8>>,
    id: ConversationId,
) -> Option<StateView> {
    match spec_get(m, id) {
        None => Some(initial_state()),
        Some(b) => match z.decodes(b) {
            Some(w) => Some(state_of_wire(w)),
            None => None,
        },
    }
}

/// What one cycle does to the stored contents, and what it returns, when the
/// backing store is reachable throughout: each cycle is one atomic
/// read-dispatch-write step on the contents.
pub open spec fn cycle_outcome<Z: Serializer, H: Handler>(
    z: Z,
    h: H,
    m: Map<ConversationId, Seq<u8>>,
    id: ConversationId,
    msg: Seq<char>,
) -> (Map<ConversationId, Seq<u8>>, Result<(), DialogueError>) {
    match loaded_state(z, m, id) {
        None => (m, Err(DialogueError::DeserializationError)),
        Some(s) => match h.next(s, msg) {
            None => (m, Err(DialogueError::HandlerError)),
            Some(TransitionView::Next(v2)) => (m.insert(id, z.encodes(wire_of(v2))), Ok(())),
            Some(TransitionView::End) => (m.remove(id), Ok(())),
        },
    }
}

/// Runs one message-processing cycle for one conversation.
///
/// Either the backing store was unreachable at some step, the cycle reports
/// that and the contents are unchanged; or the cycle behaves exactly as
/// [`cycle_outcome`] says — and a reliable store never takes the first
/// branch. Either way, no other conversation's entry changes.
pub fn process_message<S: Storage, Z: Serializer, H: Handler>(
    storage: &mut S,
    serializer: &Z,
    handler: &H,
    id: ConversationId,
    msg: &str,
) -> (r: Result<(), DialogueError>)
    ensures
        ({
            let (m2, res) = cycle_outcome(*serializer, *handler, old(storage).contents(), id, msg@);
            (final(storage).contents() == m2 && r == res)
        }) || (r == Err::<(), DialogueError>(DialogueError::StorageUnavailable)
            && final(storage).contents() == old(storage).contents()),
        old(storage).reliable() ==> ({
            let (m2, res) = cycle_outcome(*serializer, *handler, old(storage).contents(), id, msg@);
            (final(storage).contents() == m2 && r == res)
        }),
        final(storage).reliable() == old(storage).reliable(),
        forall|other: ConversationId|
            other != id ==> spec_get(final(storage).contents(), other) == spec_get(
                old(storage).contents(),
                other,
            ),
{
    let loaded = match storage.get_state(id) {
        Ok(o) => o,
        Err(_) => {
            return Err(DialogueError::StorageUnavailable);
        },
    };
    let current: StateValue = match loaded {
        None => StateValue::initial(),
        Some(bytes) => match serializer.deserialize(bytes.as_slice()) {
            Ok(v) => v,
            Err(_) => {
                return Err(DialogueError::DeserializationError);
            },
        },
    };
    let transition = match handler.handle(&current, msg) {
        Ok(t) => t,
        Err(_) => {
            return Err(DialogueError::HandlerError);
        },
    };
    match transition {
        TransitionResult::Next(next_state) => {
            let bytes = match serializer.serialize(&next_state) {
                Ok(b) => b,
                Err(_) => {
                    return vstd::pervasive::unreached();
                },
            };
            match storage.update_state(id, bytes) {
                Ok(_) => Ok(()),
                Err(_) => Err(DialogueError::StorageUnavailable),
            }
        },
        TransitionResult::End => {
            match storage.remove_state(id) {
                Ok(_) => Ok(()),
                Err(_) => Err(DialogueError::StorageUnavailable),
            }
        },
    }
}

/// A cycle for one conversation never changes another conversation's entry.
pub proof fn lemma_no_cross_contamination<Z: Serializer, H: Handler>(
    z: Z,
    h: H,
    m: Map<ConversationId, Seq<u8>>,
    id: ConversationId,
    other: ConversationId,
    msg: Seq<char>,
)
    requires
        other != id,
    ensures
        spec_get(cycle_outcome(z, h, m, id, msg).0, other) == spec_get(m, other),
{
}

/// A cycle whose transition ends the dialogue succeeds and leaves no entry
/// for the conversation.
pub proof fn lemma_end_removes_entry<Z: Serializer, H: Handler>(
    z: Z,
    h: H,
    m: Map<ConversationId, Seq<u8>>,
    id: ConversationId,
    msg: Seq<char>,
)
    requires
        loaded_state(z, m, id) matches Some(s) && h.next(s, msg) == Some(TransitionView::End),
    ensures
        cycle_outcome(z, h, m, id, msg).1 == Ok::<(), DialogueError>(()),
        spec_get(cycle_outcome(z, h, m, id, msg).0, id) is None,
{
}

/// A failing cycle leaves the stored contents exactly as they were.
pub proof fn lemma_failure_atomicity<Z: Serializer, H: Handler>(
    z: Z,
    h: H,
    m: Map<ConversationId, Seq<u8>>,
    id: ConversationId,
    msg: Seq<char>,
)
    requires
        cycle_outcome(z, h, m, id, msg).1 is Err,
    ensures
        cycle_outcome(z, h, m, id, msg).0 == m,
{
}

/// A conversation without a stored entry dispatches exactly as if the
/// serialized initial state were stored: the cycle returns the same result,
/// and on success it leaves the same contents.
pub proof fn lemma_initial_state_default<Z: Serializer, H: Handler>(
    z: Z,
    h: H,
    m: Map<ConversationId, Seq<u8>>,
    id: ConversationId,
    msg: Seq<char>,
    b: Seq<u8>,
)
    requires
        !m.contains_key(id),
        z.decodes(b) == Some(wire_of(initial_state())),
    ensures
        loaded_state(z, m, id) == loaded_state(z, m.insert(id, b), id),
        cycle_outcome(z, h, m, id, msg).1 == cycle_outcome(z, h, m.insert(id, b), id, msg).1,
        cycle_outcome(z, h, m, id, msg).1 is Ok ==> cycle_outcome(z, h, m, id, msg).0
            == cycle_outcome(z, h, m.insert(id, b), id, msg).0,
{
    lemma_wire_round_trip(initial_state());
    assert(loaded_state(z, m, id) == Some(initial_state()));
    assert(loaded_state(z, m.insert(id, b), id) == Some(initial_state()));
    match h.next(initial_state(), msg) {
        None => {},
        Some(TransitionView::Next(v2)) => {
            assert(m.insert(id, z.encodes(wire_of(v2))) =~= m.insert(id, b).insert(
                id,
                z.encodes(wire_of(v2)),
            ));
        },
        Some(TransitionView::End) => {
            assert(m.remove(id) =~= m.insert(id, b).remove(id));
        },
    }
}

/// True of every character of a decimal number, and of nothing else.
pub open spec fn is_decimal_digit(c: char) -> bool {
    ||| c == '0'
    ||| c == '1'
    ||| c == '2'
    ||| c == '3'
    ||| c == '4'
    ||| c == '5'
    ||| c == '6'
    ||| c == '7'
    ||| c == '8'
    ||| c == '9'
}

/// A non-empty string of decimal digits: what the age handler accepts.
pub open spec fn all_decimal_digits(s: Seq<char>) -> bool {
    s.len() > 0 && forall|i: int| 0 <= i < s.len() ==> is_decimal_digit(s[i])
}

fn check_decimal_digits(s: &str) -> (r: bool)
    ensures
        r == all_decimal_digits(s@),
{
    let n = s.unicode_len();
    if n == 0 {
        return false;
    }
    let mut i: usize = 0;
    while i < n
        invariant
            i <= n,
            n == s@.len(),
            n > 0,
            forall|j: int| 0 <= j < i ==> is_decimal_digit(s@[j]),
        decreases n - i,
    {
        let c = s.get_char(i);
        if !(c == '0' || c == '1' || c == '2' || c == '3' || c == '4' || c == '5' || c == '6' || c
            == '7' || c == '8' || c == '9') {
            return false;
        }
        i = i + 1;
    }
    true
}

/// The sample dialogue of this crate: ask for the counterpart's name, then
/// for the counterpart's age.
///
/// On the initial state any message is taken as the name; on the age state
/// the message must be a non-empty string of decimal digits, which completes
/// the dialogue, and anything else is a handler failure.
pub struct NameAgeHandler;

impl Handler for NameAgeHandler {
    open spec fn next(&self, s: StateView, msg: Seq<char>) -> Option<TransitionView> {
        match s {
            StateView::AwaitingName => Some(
                TransitionView::Next(StateView::AwaitingAge { name: msg }),
            ),
            StateView::AwaitingAge { .. } => if all_decimal_digits(msg) {
                Some(TransitionView::End)
            } else {
                None
            },
        }
    }

    fn handle(&self, s: &StateValue, msg: &str) -> (r: Result<TransitionResult, DialogueError>) {
        match s {
            StateValue::AwaitingName => Ok(
                TransitionResult::Next(StateValue::AwaitingAge { name: String::from_str(msg) }),
            ),
            StateValue::AwaitingAge { .. } => {
                if check_decimal_digits(msg) {
                    Ok(TransitionResult::End)
                } else {
                    Err(DialogueError::HandlerError)
                }
            },
        }
    }
}

} // verus!
