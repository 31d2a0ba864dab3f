//! The loop that merges what arrives from the server, the ticks of the clock
//! and the shutdown signal into changes of the application's state, one at a
//! time and in the order of arrival.
//!
//! Waiting is not done here. Whoever waits on the three sources hands over
//! what became ready as a `LoopEvent`; `step_app` takes in one of them, and
//! `main_loop` a whole sequence of them.

use vstd::prelude::*;
use crate::app::{App, AppView};
use crate::protocol::{Event, EventView};
use crate::state::{MessageBoxItemView, StateView, participation_notice};
use crate::termination::Interrupted;

verus! {

/// What the loop woke up for.
#[derive(Debug, PartialEq, Eq)]
pub enum LoopEvent {
    /// The server sent an event.
    Server(Event),
    /// The source of server events failed.
    SourceFailed,
    /// The source of server events came to its end.
    SourceClosed,
    /// The clock ticked.
    Tick,
    /// The shutdown signal came, with its reason.
    Shutdown(Interrupted),
}

/// A `LoopEvent` with its strings as sequences of characters.
pub enum LoopEventView {
    Server(EventView),
    SourceFailed,
    SourceClosed,
    Tick,
    Shutdown(Interrupted),
}

impl View for LoopEvent {
    type V = LoopEventView;

    open spec fn view(&self) -> LoopEventView {
        match self {
            LoopEvent::Server(event) => LoopEventView::Server(event@),
            LoopEvent::SourceFailed => LoopEventView::SourceFailed,
            LoopEvent::SourceClosed => LoopEventView::SourceClosed,
            LoopEvent::Tick => LoopEventView::Tick,
            LoopEvent::Shutdown(reason) => LoopEventView::Shutdown(*reason),
        }
    }
}

impl Clone for LoopEvent {
    fn clone(&self) -> (copy: LoopEvent)
        ensures
            copy@ == self@,
    {
        match self {
            LoopEvent::Server(event) => LoopEvent::Server(event.clone()),
            LoopEvent::SourceFailed => LoopEvent::SourceFailed,
            LoopEvent::SourceClosed => LoopEvent::SourceClosed,
            LoopEvent::Tick => LoopEvent::Tick,
            LoopEvent::Shutdown(reason) => LoopEvent::Shutdown(*reason),
        }
    }
}

impl LoopEvent {
    /// The reason with which the loop ends on this event, if it ends.
    pub fn exit(&self) -> (reason: Option<Interrupted>)
        ensures
            reason == self@.exit(),
    {
        match self {
            LoopEvent::Shutdown(reason) => Some(*reason),
            LoopEvent::SourceFailed => Some(Interrupted::ConnectionLost),
            LoopEvent::SourceClosed => Some(Interrupted::ServerClosed),
            LoopEvent::Server(_) => None,
            LoopEvent::Tick => None,
        }
    }
}

/// The views of a sequence of loop events, in order.
pub open spec fn loop_event_views(inputs: Seq<LoopEvent>) -> Seq<LoopEventView> {
    inputs.map_values(|e: LoopEvent| e@)
}

impl LoopEventView {
    /// The reason with which the loop ends on this event, if it ends: the
    /// reason of the shutdown signal, a lost connection where the source
    /// failed, a closed server where the source came to its end.
    pub open spec fn exit(self) -> Option<Interrupted> {
        match self {
            LoopEventView::Shutdown(reason) => Some(reason),
            LoopEventView::SourceFailed => Some(Interrupted::ConnectionLost),
            LoopEventView::SourceClosed => Some(Interrupted::ServerClosed),
            LoopEventView::Server(_) => None,
            LoopEventView::Tick => None,
        }
    }

    /// The event is a tick of the clock.
    pub open spec fn is_tick(self) -> bool {
        self is Tick
    }
}

/// Whether `state` can take in `input`: a server event as the state accepts
/// it, a tick while the counter has room for it, anything else always.
pub open spec fn accepts(state: StateView, input: LoopEventView) -> bool {
    match input {
        LoopEventView::Server(event) => state.accepts_event(event),
        LoopEventView::Tick => state.timer < usize::MAX,
        _ => true,
    }
}

/// The state after `input` was taken in: a server event changes it as the
/// event says, a tick counts, and what ends the loop changes nothing.
pub open spec fn step(state: StateView, input: LoopEventView) -> StateView {
    match input {
        LoopEventView::Server(event) => state.server_event(event),
        LoopEventView::Tick => state.tick(),
        _ => state,
    }
}

/// The state after the events of `inputs` were taken in, each once, first to
/// last.
pub open spec fn run(state: StateView, inputs: Seq<LoopEventView>) -> StateView
    decreases inputs.len(),
{
    if inputs.len() == 0 {
        state
    } else {
        step(run(state, inputs.drop_last()), inputs.last())
    }
}

/// Whether the events of `inputs` can be taken in one after the other,
/// starting from `state`.
pub open spec fn admissible(state: StateView, inputs: Seq<LoopEventView>) -> bool
    decreases inputs.len(),
{
    inputs.len() == 0 || (admissible(state, inputs.drop_last()) && accepts(
        run(state, inputs.drop_last()),
        inputs.last(),
    ))
}

/// The number of ticks among `inputs`.
pub open spec fn ticks(inputs: Seq<LoopEventView>) -> nat
    decreases inputs.len(),
{
    if inputs.len() == 0 {
        0
    } else if inputs.last().is_tick() {
        ticks(inputs.drop_last()) + 1
    } else {
        ticks(inputs.drop_last())
    }
}

/// The entry that `input` adds to a log, with the name of the room whose log
/// it is: a notification for a user who entered or left, the message for a
/// user who wrote. Anything else adds no entry.
pub open spec fn entry_of(input: LoopEventView) -> Option<(Seq<char>, MessageBoxItemView)> {
    match input {
        LoopEventView::Server(EventView::RoomParticipation { room, username, status }) => Some(
            (room, MessageBoxItemView::Notification(participation_notice(username, status))),
        ),
        LoopEventView::Server(EventView::UserMessage { room, username, content }) => Some(
            (room, MessageBoxItemView::Message { username, content }),
        ),
        _ => None,
    }
}

/// The entries that the events of `inputs` add to the log of the room at
/// place `i` of `state`, in the order of arrival.
pub open spec fn entries_for(
    state: StateView,
    inputs: Seq<LoopEventView>,
    i: int,
) -> Seq<MessageBoxItemView>
    decreases inputs.len(),
{
    if inputs.len() == 0 {
        Seq::empty()
    } else {
        let before = entries_for(state, inputs.drop_last(), i);
        match entry_of(inputs.last()) {
            Some((room, item)) => if state.room_index(room) == i {
                before.push(item)
            } else {
                before
            },
            None => before,
        }
    }
}

/// No event of `inputs` is a login.
pub open spec fn no_login(inputs: Seq<LoopEventView>) -> bool {
    forall|k: int|
        0 <= k < inputs.len() ==> !((#[trigger] inputs[k]) matches LoopEventView::Server(
            EventView::LoginSuccessful { .. },
        ))
}

/// `i` is the place of the first event of `inputs` that ends the loop.
pub open spec fn is_exit_index(inputs: Seq<LoopEventView>, i: int) -> bool {
    &&& 0 <= i < inputs.len()
    &&& inputs[i].exit() is Some
    &&& forall|j: int| 0 <= j < i ==> (#[trigger] inputs[j]).exit() is None
}

/// Some event of `inputs` ends the loop.
pub open spec fn has_exit(inputs: Seq<LoopEventView>) -> bool {
    exists|i: int| is_exit_index(inputs, i)
}

/// The place of the first event of `inputs` that ends the loop, where there
/// is one.
pub open spec fn exit_index(inputs: Seq<LoopEventView>) -> int {
    choose|i: int| is_exit_index(inputs, i)
}

/// The events that the loop takes in: those before the first that ends it,
/// or all of them where none does.
pub open spec fn applied(inputs: Seq<LoopEventView>) -> Seq<LoopEventView> {
    if has_exit(inputs) {
        inputs.take(exit_index(inputs))
    } else {
        inputs
    }
}

/// The reason with which the loop ends on `inputs`: that of the first event
/// that ends it, or none where the events run out before.
pub open spec fn outcome(inputs: Seq<LoopEventView>) -> Option<Interrupted> {
    if has_exit(inputs) {
        inputs[exit_index(inputs)].exit()
    } else {
        None
    }
}

/// Whether the application can take in `input`.
pub fn accepts_input(app: &App, input: &LoopEvent) -> (accepted: bool)
    ensures
        accepted == accepts(app@.state, input@),
{
    match input {
        LoopEvent::Server(event) => app.accepts_event(event),
        LoopEvent::Tick => app.state().timer() < usize::MAX,
        _ => true,
    }
}

/// One turn of the loop: takes in `input` and says whether the loop ends,
/// and why.
///
/// A server event goes to the state, a tick is counted, and on the shutdown
/// signal, or when the source of events failed or ended, nothing changes
/// and the reason is returned. Exactly one change is made per turn.
pub fn step_app(app: &mut App, input: &LoopEvent) -> (exit: Option<Interrupted>)
    requires
        old(app).wf(),
        accepts(old(app)@.state, input@),
    ensures
        final(app)@ == (AppView { state: step(old(app)@.state, input@), ..old(app)@ }),
        exit == input@.exit(),
        final(app).wf(),
{
    match input {
        LoopEvent::Server(event) => app.handle_server_event(event),
        LoopEvent::Tick => app.increment_timer(),
        _ => {},
    }
    input.exit()
}

/// Runs the loop over `inputs`: takes the events in, in their order, until
/// one ends the loop, and returns its reason; returns nothing where the
/// events run out before.
///
/// No event is skipped and none is taken in twice; what stands behind the
/// event that ends the loop is not looked at.
pub fn main_loop(app: &mut App, inputs: &Vec<LoopEvent>) -> (result: Option<Interrupted>)
    requires
        old(app).wf(),
        admissible(old(app)@.state, applied(loop_event_views(inputs@))),
    ensures
        final(app)@ == (AppView {
            state: run(old(app)@.state, applied(loop_event_views(inputs@))),
            ..old(app)@
        }),
        result == outcome(loop_event_views(inputs@)),
        final(app).wf(),
{
    let ghost views = loop_event_views(inputs@);
    let ghost start = app@;
    let mut i: usize = 0;
    while i < inputs.len()
        invariant
            i <= inputs.len(),
            views == loop_event_views(inputs@),
            start == old(app)@,
            app.wf(),
            app@ == (AppView { state: run(start.state, views.take(i as int)), ..start }),
            forall|j: int| 0 <= j < i ==> (#[trigger] views[j]).exit() is None,
            admissible(start.state, applied(views)),
        decreases inputs.len() - i,
    {
        let input = &inputs[i];
        proof {
            assert(views[i as int] == input@);
            assert(views.take(i + 1).drop_last() =~= views.take(i as int));
            assert(views.take(i + 1).last() == views[i as int]);
            if input@.exit() is Some {
                assert(is_exit_index(views, i as int));
                assert(exit_index(views) == i);
            } else {
                if has_exit(views) {
                    let k = exit_index(views);
                    assert(is_exit_index(views, k));
                    assert(k > i);
                    assert(applied(views).take(i as int) =~= views.take(i as int));
                } else {
                    assert(applied(views) == views);
                }
                lemma_admissible_prefix(start.state, applied(views), i as int);
            }
        }
        let exit = step_app(app, input);
        if exit.is_some() {
            return exit;
        }
        i = i + 1;
    }
    proof {
        assert(views.take(i as int) =~= views);
        assert(!has_exit(views));
    }
    None
}

/// Where a sequence of events can be taken in, each of its events is
/// accepted by the state that the events before it lead to.
pub proof fn lemma_admissible_prefix(state: StateView, inputs: Seq<LoopEventView>, k: int)
    requires
        admissible(state, inputs),
        0 <= k < inputs.len(),
    ensures
        accepts(run(state, inputs.take(k)), inputs[k]),
    decreases inputs.len(),
{
    if k == inputs.len() - 1 {
        assert(inputs.take(k) =~= inputs.drop_last());
    } else {
        lemma_admissible_prefix(state, inputs.drop_last(), k);
        assert(inputs.drop_last().take(k) =~= inputs.take(k));
    }
}

/// Taking in one sequence of events and then another is taking in the two
/// put together: every event is applied once, in the order of arrival.
pub proof fn lemma_run_concat(state: StateView, first: Seq<LoopEventView>, then: Seq<LoopEventView>)
    ensures
        run(state, first + then) == run(run(state, first), then),
    decreases then.len(),
{
    if then.len() == 0 {
        assert(first + then =~= first);
    } else {
        lemma_run_concat(state, first, then.drop_last());
        assert((first + then).drop_last() =~= first + then.drop_last());
        assert((first + then).last() == then.last());
    }
}

/// The tick counter after a sequence of events is the counter before plus
/// the number of ticks among them, whatever server events lie between.
pub proof fn lemma_timer_counts_ticks(state: StateView, inputs: Seq<LoopEventView>)
    ensures
        run(state, inputs).timer == state.timer + ticks(inputs),
    decreases inputs.len(),
{
    if inputs.len() > 0 {
        lemma_timer_counts_ticks(state, inputs.drop_last());
    }
}

/// Where only server events and ticks arrive, the loop takes in every one of
/// them and does not end, and the tick counter grows by the number of ticks
/// among them.
pub proof fn lemma_events_and_ticks_all_applied(state: StateView, inputs: Seq<LoopEventView>)
    requires
        forall|k: int|
            0 <= k < inputs.len() ==> (#[trigger] inputs[k]) is Server || inputs[k] is Tick,
    ensures
        applied(inputs) == inputs,
        outcome(inputs) is None,
        run(state, applied(inputs)).timer == state.timer + ticks(inputs),
{
    assert(!has_exit(inputs)) by {
        if has_exit(inputs) {
            let i = exit_index(inputs);
            assert(is_exit_index(inputs, i));
            assert(inputs[i] is Server || inputs[i] is Tick);
        }
    }
    lemma_timer_counts_ticks(state, inputs);
}

/// The first event that ends the loop ends it with its reason: the events
/// before it are taken in, each once, and those behind it never.
pub proof fn lemma_first_exit_ends_loop(
    before: Seq<LoopEventView>,
    ending: LoopEventView,
    after: Seq<LoopEventView>,
)
    requires
        forall|k: int| 0 <= k < before.len() ==> (#[trigger] before[k]).exit() is None,
        ending.exit() is Some,
    ensures
        applied(before.push(ending) + after) == before,
        outcome(before.push(ending) + after) == ending.exit(),
{
    let inputs = before.push(ending) + after;
    let i = before.len() as int;
    assert(inputs[i] == ending);
    assert forall|j: int| 0 <= j < i implies (#[trigger] inputs[j]).exit() is None by {
        assert(inputs[j] == before[j]);
    }
    assert(is_exit_index(inputs, i));
    let k = exit_index(inputs);
    assert(is_exit_index(inputs, k));
    assert(k == i) by {
        if k < i {
            assert(inputs[k].exit() is None);
        } else if i < k {
            assert(inputs[i].exit() is None);
        }
    }
    assert(inputs.take(i) =~= before);
}

/// Two states whose rooms have the same names, place by place.
pub open spec fn same_room_names(a: StateView, b: StateView) -> bool {
    &&& a.rooms.len() == b.rooms.len()
    &&& forall|j: int| 0 <= j < a.rooms.len() ==> (#[trigger] a.rooms[j]).name == b.rooms[j].name
}

/// Where two states have rooms of the same names, a name that stands for a
/// room in one stands for the room at the same place in the other.
pub proof fn lemma_same_names_same_index(a: StateView, b: StateView, name: Seq<char>)
    requires
        same_room_names(a, b),
        a.has_room(name),
    ensures
        b.has_room(name),
        b.room_index(name) == a.room_index(name),
{
    let i = a.room_index(name);
    assert(a.is_room_index(name, i));
    assert forall|j: int| 0 <= j < i implies (#[trigger] b.rooms[j]).name != name by {
        assert(a.rooms[j].name != name);
    }
    assert(a.rooms[i].name == b.rooms[i].name);
    assert(b.is_room_index(name, i));
    let k = b.room_index(name);
    assert(b.is_room_index(name, k));
    if k < i {
        assert(b.rooms[k].name == name);
    } else if i < k {
        assert(b.rooms[i].name != name);
    }
}

/// An event that is no login keeps the rooms and their names, and leaves
/// every log as it is but for the entry that it adds to one.
pub proof fn lemma_step_adds_entry(state: StateView, input: LoopEventView, i: int)
    requires
        state.wf(),
        accepts(state, input),
        !(input matches LoopEventView::Server(EventView::LoginSuccessful { .. })),
        0 <= i < state.rooms.len(),
    ensures
        step(state, input).wf(),
        same_room_names(state, step(state, input)),
        step(state, input).messages[i] == match entry_of(input) {
            Some((room, item)) => if state.room_index(room) == i {
                state.messages[i].push(item)
            } else {
                state.messages[i]
            },
            None => state.messages[i],
        },
{
    match input {
        LoopEventView::Server(EventView::RoomParticipation { room, username, status }) => {
            let k = state.room_index(room);
            assert(state.is_room_index(room, k));
        },
        LoopEventView::Server(EventView::UserMessage { room, .. }) => {
            let k = state.room_index(room);
            assert(state.is_room_index(room, k));
        },
        _ => {},
    }
}

/// Between logins the log of a room grows by exactly the entries of the
/// events that name the room, in the order in which they arrived: after the
/// events of `inputs`, none of them a login, the log of the room at place
/// `i` is what it was before, followed by those entries.
pub proof fn lemma_logs_collect_entries(state: StateView, inputs: Seq<LoopEventView>, i: int)
    requires
        state.wf(),
        admissible(state, inputs),
        no_login(inputs),
        0 <= i < state.rooms.len(),
    ensures
        run(state, inputs).wf(),
        same_room_names(state, run(state, inputs)),
        run(state, inputs).messages[i] == state.messages[i] + entries_for(state, inputs, i),
    decreases inputs.len(),
{
    if inputs.len() == 0 {
        assert(state.messages[i] + Seq::<MessageBoxItemView>::empty() =~= state.messages[i]);
    } else {
        let earlier = inputs.drop_last();
        let last = inputs.last();
        assert(no_login(earlier)) by {
            assert forall|k: int| 0 <= k < earlier.len() implies !((#[trigger] earlier[k])
                matches LoopEventView::Server(EventView::LoginSuccessful { .. })) by {
                assert(earlier[k] == inputs[k]);
            }
        }
        lemma_logs_collect_entries(state, earlier, i);
        let before = run(state, earlier);
        assert(!(last matches LoopEventView::Server(EventView::LoginSuccessful { .. }))) by {
            assert(last == inputs[inputs.len() - 1]);
        }
        lemma_step_adds_entry(before, last, i);
        match entry_of(last) {
            Some((room, item)) => {
                assert(before.has_room(room));
                lemma_same_names_same_index(before, state, room);
                let grown = state.messages[i] + entries_for(state, earlier, i);
                assert(grown.push(item) =~= state.messages[i] + entries_for(state, earlier, i).push(
                    item,
                ));
            },
            None => {},
        }
    }
}

} // verus!
