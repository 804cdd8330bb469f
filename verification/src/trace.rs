//! Whole runs of the machine, and what holds of every one of them.

use vstd::prelude::*;

use crate::driver::{
    balance_label, buying_power_label, failure, step, transition, ActionView, Event, EventView,
    State, Transition, TransitionView,
};
use crate::error::ErrorView;
use crate::request::{first_balance_page, samsung_market_order};

verus! {

/// The moves made when `events` are fed to the machine in order, starting in
/// `state`. An event that the machine does not wait for makes no move.
pub open spec fn run(state: State, events: Seq<EventView>) -> Seq<TransitionView>
    decreases events.len(),
{
    if events.len() == 0 {
        Seq::empty()
    } else {
        match transition(state, events[0]) {
            Some(t) => seq![t] + run(t.next, events.drop_first()),
            None => run(state, events.drop_first()),
        }
    }
}

/// The state that a run ends in.
pub open spec fn end_state(state: State, events: Seq<EventView>) -> State {
    if run(state, events).len() == 0 {
        state
    } else {
        run(state, events).last().next
    }
}

/// Contents of a list of events.
pub open spec fn events_of(events: Seq<Event>) -> Seq<EventView> {
    events.map_values(|e: Event| e@)
}

/// Contents of a list of moves.
pub open spec fn moves_of(moves: Seq<Transition>) -> Seq<TransitionView> {
    moves.map_values(|t: Transition| t@)
}

/// A run is its first move, if the first event makes one, and then the run
/// of the other events from where that move led.
proof fn lemma_run_unfolds(state: State, events: Seq<EventView>, i: int)
    requires
        0 <= i < events.len(),
    ensures
        run(state, events.skip(i)) == (match transition(state, events[i]) {
            Some(t) => seq![t] + run(t.next, events.skip(i + 1)),
            None => run(state, events.skip(i + 1)),
        }),
{
    assert(events.skip(i).drop_first() =~= events.skip(i + 1));
    assert(events.skip(i)[0] == events[i]);
}

/// Feeds a whole list of events to the machine, in order, and returns the
/// state reached and the moves made: exactly the [`run`] of those events.
pub fn replay(start: State, events: Vec<Event>) -> (r: (State, Vec<Transition>))
    ensures
        moves_of(r.1@) == run(start, events_of(events@)),
        r.0 == end_state(start, events_of(events@)),
{
    let ghost all = events_of(events@);
    let mut state = start;
    let mut moves: Vec<Transition> = Vec::new();
    proof {
        assert(all.skip(0) =~= all);
        assert(moves_of(moves@) + run(state, all.skip(0)) =~= run(start, all));
    }
    for event in it: events
        invariant
            all == events_of(it.seq()),
            moves_of(moves@) + run(state, all.skip(it.index() as int)) == run(start, all),
            state == if moves@.len() == 0 {
                start
            } else {
                moves@.last().next
            },
    {
        proof {
            lemma_run_unfolds(state, all, it.index() as int);
        }
        let ghost before = moves_of(moves@);
        match step(state, event) {
            Some(t) => {
                state = t.next;
                moves.push(t);
                proof {
                    assert(moves_of(moves@) =~= before + seq![t@]);
                    assert(moves_of(moves@) + run(state, all.skip(it.index() + 1)) =~= before + (
                    seq![t@] + run(state, all.skip(it.index() + 1))));
                }
            },
            None => {},
        }
    }
    proof {
        assert(all.skip(all.len() as int) =~= Seq::<EventView>::empty());
        assert(moves_of(moves@) + Seq::<TransitionView>::empty() =~= moves_of(moves@));
    }
    (state, moves)
}

/// The state in which move `k` of a run is made.
pub open spec fn source(state: State, events: Seq<EventView>, k: int) -> State {
    if k == 0 {
        state
    } else {
        run(state, events)[k - 1].next
    }
}

/// How far a run has come.
pub open spec fn progress(state: State) -> nat {
    match state {
        State::Start => 0,
        State::Logging => 1,
        State::Parsing => 2,
        State::Loading => 3,
        State::Connecting => 4,
        State::Balance => 5,
        State::BuyingPower => 6,
        State::Done => 7,
    }
}

/// Every move of a run is a move of the machine, made in the state that the
/// move before it led to. Returns the event that was answered.
pub proof fn lemma_link(state: State, events: Seq<EventView>, k: int) -> (e: EventView)
    requires
        0 <= k < run(state, events).len(),
    ensures
        transition(source(state, events, k), e) == Some(run(state, events)[k]),
    decreases events.len(),
{
    let rest = events.drop_first();
    match transition(state, events[0]) {
        Some(t) => {
            assert(run(state, events) =~= seq![t] + run(t.next, rest));
            if k == 0 {
                events[0]
            } else {
                lemma_link(t.next, rest, k - 1)
            }
        },
        None => lemma_link(state, rest, k),
    }
}

/// A run only moves forward: each move leads to a state further on than the
/// one any earlier move led to.
pub proof fn lemma_forward(state: State, events: Seq<EventView>, i: int, j: int)
    requires
        0 <= i < j < run(state, events).len(),
    ensures
        progress(run(state, events)[i].next) < progress(run(state, events)[j].next),
    decreases j - i,
{
    let e = lemma_link(state, events, j);
    if i < j - 1 {
        lemma_forward(state, events, i, j - 1);
    }
}

/// Parameter fidelity: whatever happens, a balance inquiry is only ever
/// issued with the first-page parameters, and a buying-power inquiry only
/// with those of the market order for Samsung Electronics.
pub proof fn law_inquiry_parameters(state: State, events: Seq<EventView>, k: int)
    requires
        0 <= k < run(state, events).len(),
    ensures
        (match run(state, events)[k].action {
            ActionView::InquireBalance(q) => q == first_balance_page(),
            ActionView::InquireBuyingPower(q) => q == samsung_market_order(),
            _ => true,
        }),
{
    let e = lemma_link(state, events, k);
}

/// A failure ends the run: the move that reports a failure, or malformed
/// arguments, writes no line and is the last move, so nothing is issued
/// after it.
pub proof fn law_failure_is_final(state: State, events: Seq<EventView>, k: int)
    requires
        0 <= k < run(state, events).len(),
        run(state, events)[k].action is Fail || run(state, events)[k].action is Usage,
    ensures
        run(state, events)[k].output is None,
        run(state, events)[k].next == State::Done,
        k == run(state, events).len() - 1,
{
    let e = lemma_link(state, events, k);
    if k + 1 < run(state, events).len() {
        let f = lemma_link(state, events, k + 1);
    }
}

/// Ordering: in a run from the start in which the buying-power line is
/// written (move `k`), the move just before it wrote the balance line and
/// issued the buying-power inquiry, and no other move wrote anything. So the
/// balance line is out before the second inquiry begins, and strictly
/// before the buying-power line.
pub proof fn law_balance_line_first(events: Seq<EventView>, k: int, i: int)
    requires
        0 <= k < run(State::Start, events).len(),
        run(State::Start, events)[k].action is Exit,
        0 <= i < run(State::Start, events).len(),
    ensures
        k >= 1,
        k == run(State::Start, events).len() - 1,
        run(State::Start, events)[k].output is Some,
        buying_power_label().is_prefix_of(run(State::Start, events)[k].output->Some_0),
        run(State::Start, events)[k - 1].action is InquireBuyingPower,
        run(State::Start, events)[k - 1].output is Some,
        balance_label().is_prefix_of(run(State::Start, events)[k - 1].output->Some_0),
        run(State::Start, events)[i].output is Some ==> i == k - 1 || i == k,
{
    let trace = run(State::Start, events);
    let e = lemma_link(State::Start, events, k);
    let f = lemma_link(State::Start, events, k - 1);
    if k + 1 < trace.len() {
        let g = lemma_link(State::Start, events, k + 1);
    }
    if i < k - 1 {
        let h = lemma_link(State::Start, events, i);
        lemma_forward(State::Start, events, i, k - 1);
    }
}

/// Short-circuit: in a run from the start in which the balance inquiry
/// fails (move `k` reports a failure right after the move that issued the
/// balance inquiry), no move issues the buying-power inquiry and no line is
/// written.
pub proof fn law_balance_failure_short_circuits(events: Seq<EventView>, k: int, j: int)
    requires
        1 <= k < run(State::Start, events).len(),
        run(State::Start, events)[k - 1].action is InquireBalance,
        run(State::Start, events)[k].action is Fail,
        0 <= j < run(State::Start, events).len(),
    ensures
        !(run(State::Start, events)[j].action is InquireBuyingPower),
        run(State::Start, events)[j].output is None,
        run(State::Start, events)[k].action matches ActionView::Fail(e) && e is ApiError,
{
    let e = lemma_link(State::Start, events, k);
    let f = lemma_link(State::Start, events, k - 1);
    law_failure_is_final(State::Start, events, k);
    let h = lemma_link(State::Start, events, j);
    if j < k - 1 {
        lemma_forward(State::Start, events, j, k - 1);
    }
}

/// A failed balance inquiry is answered by the failure alone: whatever is
/// reported afterwards, the run consists of that one move.
pub proof fn law_after_balance_failure(e: korea_investment_api::Error, later: Seq<EventView>)
    ensures
        run(State::Balance, seq![EventView::Balance(Err(e))] + later) == seq![
            failure(ErrorView::ApiError(e))->Some_0,
        ],
{
    let events = seq![EventView::Balance(Err(e))] + later;
    let trace = run(State::Balance, events);
    assert(events[0] == EventView::Balance(Err(e)));
    assert(events.drop_first() =~= later);
    assert(trace.len() >= 1);
    if trace.len() > 1 {
        law_failure_is_final(State::Balance, events, 0);
    }
    assert(trace =~= seq![failure(ErrorView::ApiError(e))->Some_0]);
}

/// Every run ends: from the start it makes at most seven moves.
pub proof fn law_run_is_short(events: Seq<EventView>)
    ensures
        run(State::Start, events).len() <= 7,
{
    let trace = run(State::Start, events);
    if trace.len() > 7 {
        let e0 = lemma_link(State::Start, events, 0);
        lemma_forward(State::Start, events, 0, 1);
        lemma_forward(State::Start, events, 1, 2);
        lemma_forward(State::Start, events, 2, 3);
        lemma_forward(State::Start, events, 3, 4);
        lemma_forward(State::Start, events, 4, 5);
        lemma_forward(State::Start, events, 5, 6);
        lemma_forward(State::Start, events, 6, 7);
    }
}

} // verus!
