//! What the client takes the item service to be, and what follows for the
//! call wrappers and the startup sequence when the service is that.
//!
//! Nothing here runs: the service is remote. This is the statement of what
//! its answers are expected to be, and the laws are proved of every service
//! that answers so.

use crate::calls::{settled, OutcomeView};
use crate::messages::{Operation, RequestView, ResponseView};
use crate::startup::{
    answer_met, law_finishes_iff_every_answer_is_met, law_progress, script, StartupView,
};
use crate::command::{law_words_make_a_command_line, turn_of, TurnView};
use crate::text::lowered;
use crate::words::{is_word, joined};
use vstd::prelude::*;

verus! {

/// The service as the client sees it.
pub struct Service {
    /// The entries that it holds: a value under each key.
    pub items: Map<Seq<char>, Seq<char>>,
    /// What it answers when asked for a key that it does not hold.
    pub absent: OutcomeView,
}

/// One call and what came back for it.
pub struct Exchange {
    pub call: RequestView,
    pub outcome: OutcomeView,
}

/// How many of `keys` the service holds.
pub open spec fn held(service: Service, keys: Seq<Seq<char>>) -> nat {
    keys.to_set().intersect(service.items.dom()).len()
}

/// Whether `outcome` is the service's answer to `call`, and `after` the
/// service once it has answered.
///
/// A value is found under the key it was stored under. A store is
/// confirmed with `OK`. A delete removes the keys and counts those that
/// were held. A probe echoes its message; without one, it is acknowledged
/// with `pong` in some case. What a post does to the entries is
/// left open.
pub open spec fn serves(before: Service, call: RequestView, outcome: OutcomeView, after: Service)
    -> bool {
    match call {
        RequestView::GetItem { key } => {
            &&& after == before
            &&& outcome == if before.items.contains_key(key) {
                Ok(ResponseView::GetItem { value: before.items[key] })
            } else {
                before.absent
            }
        },
        RequestView::SetItem { key, value } => {
            &&& after.items == before.items.insert(key, value)
            &&& after.absent == before.absent
            &&& outcome == Ok::<ResponseView, Seq<char>>(ResponseView::SetItem { message: "OK"@ })
        },
        RequestView::DeleteItem { keys } => {
            &&& after.items == before.items.remove_keys(keys.to_set())
            &&& after.absent == before.absent
            &&& outcome matches Ok(ResponseView::DeleteItem { count })
            &&& count == held(before, keys)
        },
        RequestView::Ping { message: Some(message) } => {
            &&& after == before
            &&& outcome == Ok::<ResponseView, Seq<char>>(ResponseView::Ping { message })
        },
        RequestView::Ping { message: None } => {
            &&& after == before
            &&& outcome matches Ok(ResponseView::Ping { message })
            &&& lowered(message) == "pong"@
        },
        RequestView::PostItem { .. } => after.absent == before.absent,
    }
}

/// Whether `states` are the states that the service goes through while it
/// answers the exchanges of `trace` in order.
pub open spec fn serves_all(states: Seq<Service>, trace: Seq<Exchange>) -> bool {
    &&& states.len() == trace.len() + 1
    &&& forall|i: int|
        0 <= i < trace.len() ==> serves(
            states[i],
            (#[trigger] trace[i]).call,
            trace[i].outcome,
            states[i + 1],
        )
}

/// Whether a call may change what is found under `key`.
pub open spec fn touches(call: RequestView, key: Seq<char>) -> bool {
    match call {
        RequestView::SetItem { key: stored, .. } => stored == key,
        RequestView::DeleteItem { keys } => keys.contains(key),
        RequestView::PostItem { .. } => true,
        _ => false,
    }
}

/// The outcomes of a trace, in order.
pub open spec fn outcomes_of(trace: Seq<Exchange>) -> Seq<OutcomeView> {
    Seq::new(trace.len(), |i: int| trace[i].outcome)
}

/// A value that was stored is the value that the next get of its key
/// returns.
pub proof fn law_get_returns_what_was_set(
    before: Service,
    key: Seq<char>,
    value: Seq<char>,
    stored: OutcomeView,
    between: Service,
    found: OutcomeView,
    after: Service,
)
    requires
        serves(before, RequestView::SetItem { key, value }, stored, between),
        serves(between, RequestView::GetItem { key }, found, after),
    ensures
        settled(Operation::GetItem, found).response == (ResponseView::GetItem { value }),
        settled(Operation::GetItem, found).failure is None,
{
}

/// A delete returns the number of its keys that the service held just
/// before, which is at most the number of keys given.
pub proof fn law_delete_counts_held_keys(
    before: Service,
    keys: Seq<Seq<char>>,
    outcome: OutcomeView,
    after: Service,
)
    requires
        serves(before, RequestView::DeleteItem { keys }, outcome, after),
    ensures
        settled(Operation::DeleteItem, outcome).response matches ResponseView::DeleteItem { count }
            && count == held(before, keys) && count <= keys.len(),
        forall|key: Seq<char>| keys.contains(key) ==> !after.items.contains_key(key),
{
    keys.lemma_cardinality_of_set();
    vstd::set_lib::lemma_len_intersect(keys.to_set(), before.items.dom());
}

/// A probe with a message returns exactly that message, an empty one too.
pub proof fn law_ping_echoes(
    before: Service,
    message: Seq<char>,
    outcome: OutcomeView,
    after: Service,
)
    requires
        serves(before, RequestView::Ping { message: Some(message) }, outcome, after),
    ensures
        settled(Operation::Ping, outcome).response == (ResponseView::Ping { message }),
{
}

/// A probe without a message returns a message that reads `pong` once its
/// case is normalized.
pub proof fn law_ping_is_acknowledged(before: Service, outcome: OutcomeView, after: Service)
    requires
        serves(before, RequestView::Ping { message: None }, outcome, after),
    ensures
        settled(Operation::Ping, outcome).response matches ResponseView::Ping { message }
            && lowered(message) == "pong"@,
{
}

/// A call that does not touch `key` leaves what a get of `key` is answered
/// with as it was.
proof fn lemma_untouched_key_keeps_answer(
    before: Service,
    call: RequestView,
    outcome: OutcomeView,
    after: Service,
    key: Seq<char>,
    asked: OutcomeView,
)
    requires
        serves(before, call, outcome, after),
        !touches(call, key),
        serves(before, RequestView::GetItem { key }, asked, before),
    ensures
        serves(after, RequestView::GetItem { key }, asked, after),
{
    if let RequestView::DeleteItem { keys } = call {
        assert(!keys.to_set().contains(key));
    }
}

/// Through a run of calls that do not touch `key`, what a get of `key` is
/// answered with stays as it was behind the first exchange.
proof fn lemma_answer_carries(
    states: Seq<Service>,
    trace: Seq<Exchange>,
    key: Seq<char>,
    asked: OutcomeView,
    at: int,
)
    requires
        serves_all(states, trace),
        1 <= at <= trace.len() - 1,
        forall|i: int| 0 < i < trace.len() - 1 ==> !touches((#[trigger] trace[i]).call, key),
        serves(states[1], RequestView::GetItem { key }, asked, states[1]),
    ensures
        serves(states[at], RequestView::GetItem { key }, asked, states[at]),
    decreases at,
{
    if at > 1 {
        lemma_answer_carries(states, trace, key, asked, at - 1);
        let exchange = trace[at - 1];
        lemma_untouched_key_keeps_answer(
            states[at - 1],
            exchange.call,
            exchange.outcome,
            states[at],
            key,
            asked,
        );
    }
}

/// Two gets of one key return identical responses when no call in between
/// set the key, deleted it, or posted an item.
pub proof fn law_get_is_repeatable(states: Seq<Service>, trace: Seq<Exchange>, key: Seq<char>)
    requires
        serves_all(states, trace),
        trace.len() >= 2,
        trace.first().call == (RequestView::GetItem { key }),
        trace.last().call == (RequestView::GetItem { key }),
        forall|i: int| 0 < i < trace.len() - 1 ==> !touches((#[trigger] trace[i]).call, key),
    ensures
        settled(Operation::GetItem, trace.first().outcome) == settled(
            Operation::GetItem,
            trace.last().outcome,
        ),
{
    let asked = trace.first().outcome;
    let last = trace.len() - 1;
    lemma_answer_carries(states, trace, key, asked, last);
}

/// Entered as commands, a set and a get of the same key show the value that
/// was set: the line `set <key> <value>` asks for the store, the line
/// `get <key>` asks for the value, and the response that is printed for
/// the get holds it.
pub proof fn law_set_then_get_shows_the_value(
    key: Seq<char>,
    value: Seq<char>,
    before: Service,
    stored: OutcomeView,
    between: Service,
    found: OutcomeView,
    after: Service,
)
    requires
        is_word(key),
        is_word(value),
        serves(before, RequestView::SetItem { key, value }, stored, between),
        serves(between, RequestView::GetItem { key }, found, after),
    ensures
        turn_of(joined(seq!["set"@, key, value])) == TurnView::Call(
            RequestView::SetItem { key, value },
        ),
        turn_of(joined(seq!["get"@, key])) == TurnView::Call(RequestView::GetItem { key }),
        settled(Operation::GetItem, found).response == (ResponseView::GetItem { value }),
{
    reveal_strlit("get");
    reveal_strlit("set");
    assert("get"@[0] != "set"@[0]);
    let store = seq!["set"@, key, value];
    let fetch = seq!["get"@, key];
    law_words_make_a_command_line(store);
    law_words_make_a_command_line(fetch);
}

/// Against a service that answers as expected, every answer of the startup
/// sequence is what its step expects, and the sequence finishes. This
/// holds whatever the service held before, and whatever came back for the
/// post.
pub proof fn law_startup_finishes(states: Seq<Service>, trace: Seq<Exchange>)
    requires
        trace.len() == script().len(),
        forall|i: int| 0 <= i < trace.len() ==> (#[trigger] trace[i]).call == script()[i].call,
        serves_all(states, trace),
    ensures
        StartupView::start(script()).after(outcomes_of(trace)).finished(),
{
    let outcomes = outcomes_of(trace);
    assert(answer_met(script(), outcomes, 2)) by {
        law_get_returns_what_was_set(
            states[1],
            "key"@,
            "value"@,
            trace[1].outcome,
            states[2],
            trace[2].outcome,
            states[3],
        );
    }
    assert(answer_met(script(), outcomes, 3)) by {
        let keys = seq!["key"@];
        assert(keys.to_set().intersect(states[3].items.dom()) == set!["key"@]) by {
            assert(keys[0] == "key"@);
        }
        assert(set!["key"@].len() == 1);
    }
    law_progress(script(), outcomes);
    law_finishes_iff_every_answer_is_met(script(), outcomes);
}

} // verus!
