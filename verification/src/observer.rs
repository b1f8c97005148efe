//! Callback tables and the mapping of engine events to invocations of the
//! callbacks they hold.
//!
//! A callback is a foreign function, known here by its address. A table holds
//! one callback per kind of event. Mapping an event for a table picks the
//! callback of that kind and marshals the event's arguments; performing the
//! invocation is left to the caller of this module.

use vstd::prelude::*;

use crate::codec::{encodable, encoded, to_mut_i8};
use crate::float32::Float32;

verus! {

/// Address of a callback that takes no argument.
pub type OnOp = usize;

/// Address of a callback that takes the number of the frame just set.
pub type OnFrameOp = usize;

/// Address of a callback that takes the number of the frame just rendered.
pub type OnRenderOp = usize;

/// Address of a callback that takes the count of loops completed.
pub type OnLoopOp = usize;

/// Address of a callback that takes the previous and the new state's name.
pub type OnTransitionOp = usize;

/// Address of a callback that takes the name of the state entered.
pub type OnStateEnteredOp = usize;

/// Address of a callback that takes the name of the state left.
pub type OnStateExitOp = usize;

/// One call of a foreign function, with its arguments marshalled.
///
/// Text arguments are native strings whose ownership passes to the callback.
#[derive(Clone, Debug)]
pub enum Invocation {
    Plain { function: usize },
    Number { function: usize, value: Float32 },
    Count { function: usize, value: u32 },
    Text { function: usize, text: Vec<u8> },
    TwoTexts { function: usize, first: Vec<u8>, second: Vec<u8> },
}

/// What the engine reports of playback.
#[derive(Clone, Copy, Debug, PartialEq, Eq, Structural)]
pub enum PlayerEvent {
    Load,
    LoadError,
    Play,
    Pause,
    Stop,
    Frame { frame_no: Float32 },
    Render { frame_no: Float32 },
    Loop { loop_count: u32 },
    Complete,
}

/// What the engine reports of its state machine.
#[derive(Clone, Debug)]
pub enum StateMachineEvent {
    Transition { previous_state: String, new_state: String },
    StateEntered { entering_state: String },
    StateExit { leaving_state: String },
}

/// A caller's table of playback callbacks.
#[derive(Clone, Copy, Debug, PartialEq, Eq, Structural)]
pub struct Observer {
    pub on_load_op: OnOp,
    pub on_load_error_op: OnOp,
    pub on_play_op: OnOp,
    pub on_pause_op: OnOp,
    pub on_stop_op: OnOp,
    pub on_frame_op: OnFrameOp,
    pub on_render_op: OnRenderOp,
    pub on_loop_op: OnLoopOp,
    pub on_complete_op: OnOp,
}

impl Observer {
    /// The invocation that `event` means for this table: the callback of the
    /// event's kind, with the event's own argument.
    pub open spec fn invocation(self, event: PlayerEvent) -> Invocation {
        match event {
            PlayerEvent::Load => Invocation::Plain { function: self.on_load_op },
            PlayerEvent::LoadError => Invocation::Plain { function: self.on_load_error_op },
            PlayerEvent::Play => Invocation::Plain { function: self.on_play_op },
            PlayerEvent::Pause => Invocation::Plain { function: self.on_pause_op },
            PlayerEvent::Stop => Invocation::Plain { function: self.on_stop_op },
            PlayerEvent::Frame { frame_no } => Invocation::Number {
                function: self.on_frame_op,
                value: frame_no,
            },
            PlayerEvent::Render { frame_no } => Invocation::Number {
                function: self.on_render_op,
                value: frame_no,
            },
            PlayerEvent::Loop { loop_count } => Invocation::Count {
                function: self.on_loop_op,
                value: loop_count,
            },
            PlayerEvent::Complete => Invocation::Plain { function: self.on_complete_op },
        }
    }

    /// The invocation for an animation that was loaded.
    pub fn on_load(&self) -> (call: Invocation)
        ensures
            call == self.invocation(PlayerEvent::Load),
    {
        Invocation::Plain { function: self.on_load_op }
    }

    /// The invocation for an animation that failed to load.
    pub fn on_load_error(&self) -> (call: Invocation)
        ensures
            call == self.invocation(PlayerEvent::LoadError),
    {
        Invocation::Plain { function: self.on_load_error_op }
    }

    /// The invocation for playback that started.
    pub fn on_play(&self) -> (call: Invocation)
        ensures
            call == self.invocation(PlayerEvent::Play),
    {
        Invocation::Plain { function: self.on_play_op }
    }

    /// The invocation for playback that paused.
    pub fn on_pause(&self) -> (call: Invocation)
        ensures
            call == self.invocation(PlayerEvent::Pause),
    {
        Invocation::Plain { function: self.on_pause_op }
    }

    /// The invocation for playback that stopped.
    pub fn on_stop(&self) -> (call: Invocation)
        ensures
            call == self.invocation(PlayerEvent::Stop),
    {
        Invocation::Plain { function: self.on_stop_op }
    }

    /// The invocation for a frame that was set, with its number.
    pub fn on_frame(&self, frame_no: Float32) -> (call: Invocation)
        ensures
            call == self.invocation(PlayerEvent::Frame { frame_no }),
    {
        Invocation::Number { function: self.on_frame_op, value: frame_no }
    }

    /// The invocation for a frame that was rendered, with its number.
    pub fn on_render(&self, frame_no: Float32) -> (call: Invocation)
        ensures
            call == self.invocation(PlayerEvent::Render { frame_no }),
    {
        Invocation::Number { function: self.on_render_op, value: frame_no }
    }

    /// The invocation for a loop that completed, with the count of loops.
    pub fn on_loop(&self, loop_count: u32) -> (call: Invocation)
        ensures
            call == self.invocation(PlayerEvent::Loop { loop_count }),
    {
        Invocation::Count { function: self.on_loop_op, value: loop_count }
    }

    /// The invocation for playback that reached its end.
    pub fn on_complete(&self) -> (call: Invocation)
        ensures
            call == self.invocation(PlayerEvent::Complete),
    {
        Invocation::Plain { function: self.on_complete_op }
    }

    /// Turns an event into the one invocation it means for this table.
    pub fn notify(&self, event: PlayerEvent) -> (call: Invocation)
        ensures
            call == self.invocation(event),
    {
        match event {
            PlayerEvent::Load => self.on_load(),
            PlayerEvent::LoadError => self.on_load_error(),
            PlayerEvent::Play => self.on_play(),
            PlayerEvent::Pause => self.on_pause(),
            PlayerEvent::Stop => self.on_stop(),
            PlayerEvent::Frame { frame_no } => self.on_frame(frame_no),
            PlayerEvent::Render { frame_no } => self.on_render(frame_no),
            PlayerEvent::Loop { loop_count } => self.on_loop(loop_count),
            PlayerEvent::Complete => self.on_complete(),
        }
    }
}

/// A caller's table of state machine callbacks.
#[derive(Clone, Copy, Debug, PartialEq, Eq, Structural)]
pub struct StateMachineObserver {
    pub on_transition_op: OnTransitionOp,
    pub on_state_entered_op: OnStateEnteredOp,
    pub on_state_exit_op: OnStateExitOp,
}

impl StateMachineEvent {
    /// Every state name of the event can be carried by a native string.
    pub open spec fn is_encodable(self) -> bool {
        match self {
            StateMachineEvent::Transition { previous_state, new_state } => encodable(
                previous_state@,
            ) && encodable(new_state@),
            StateMachineEvent::StateEntered { entering_state } => encodable(entering_state@),
            StateMachineEvent::StateExit { leaving_state } => encodable(leaving_state@),
        }
    }
}

impl StateMachineObserver {
    /// `call` is the invocation that `event` means for this table: the
    /// callback of the event's kind, with each state name as a native string.
    pub open spec fn invokes(self, event: StateMachineEvent, call: Invocation) -> bool {
        match event {
            StateMachineEvent::Transition { previous_state, new_state } => {
                &&& call matches Invocation::TwoTexts { function, first, second }
                &&& function == self.on_transition_op
                &&& first@ == encoded(previous_state@)
                &&& second@ == encoded(new_state@)
            },
            StateMachineEvent::StateEntered { entering_state } => {
                &&& call matches Invocation::Text { function, text }
                &&& function == self.on_state_entered_op
                &&& text@ == encoded(entering_state@)
            },
            StateMachineEvent::StateExit { leaving_state } => {
                &&& call matches Invocation::Text { function, text }
                &&& function == self.on_state_exit_op
                &&& text@ == encoded(leaving_state@)
            },
        }
    }

    /// The invocation for a transition, or none if a state name cannot be
    /// marshalled.
    pub fn on_transition(&self, previous_state: &String, new_state: &String) -> (call: Option<
        Invocation,
    >)
        ensures
            call is Some <==> encodable(previous_state@) && encodable(new_state@),
            call matches Some(c) ==> self.invokes(
                StateMachineEvent::Transition {
                    previous_state: *previous_state,
                    new_state: *new_state,
                },
                c,
            ),
    {
        if let Ok(first) = to_mut_i8(previous_state.as_str()) {
            if let Ok(second) = to_mut_i8(new_state.as_str()) {
                return Some(
                    Invocation::TwoTexts { function: self.on_transition_op, first, second },
                );
            }
        }
        None
    }

    /// The invocation for entering a state, or none if its name cannot be
    /// marshalled.
    pub fn on_state_entered(&self, entering_state: &String) -> (call: Option<Invocation>)
        ensures
            call is Some <==> encodable(entering_state@),
            call matches Some(c) ==> self.invokes(
                StateMachineEvent::StateEntered { entering_state: *entering_state },
                c,
            ),
    {
        if let Ok(text) = to_mut_i8(entering_state.as_str()) {
            return Some(Invocation::Text { function: self.on_state_entered_op, text });
        }
        None
    }

    /// The invocation for leaving a state, or none if its name cannot be
    /// marshalled.
    pub fn on_state_exit(&self, leaving_state: &String) -> (call: Option<Invocation>)
        ensures
            call is Some <==> encodable(leaving_state@),
            call matches Some(c) ==> self.invokes(
                StateMachineEvent::StateExit { leaving_state: *leaving_state },
                c,
            ),
    {
        if let Ok(text) = to_mut_i8(leaving_state.as_str()) {
            return Some(Invocation::Text { function: self.on_state_exit_op, text });
        }
        None
    }

    /// Turns an event into the one invocation it means for this table,
    /// or into none if a state name cannot be marshalled.
    pub fn notify(&self, event: &StateMachineEvent) -> (call: Option<Invocation>)
        ensures
            call is Some <==> event.is_encodable(),
            call matches Some(c) ==> self.invokes(*event, c),
    {
        match event {
            StateMachineEvent::Transition { previous_state, new_state } => self.on_transition(
                previous_state,
                new_state,
            ),
            StateMachineEvent::StateEntered { entering_state } => self.on_state_entered(
                entering_state,
            ),
            StateMachineEvent::StateExit { leaving_state } => self.on_state_exit(leaving_state),
        }
    }
}

/// The sequence without any occurrence of `item`, the rest in order.
pub open spec fn without<A>(items: Seq<A>, item: A) -> Seq<A>
    decreases items.len(),
{
    if items.len() == 0 {
        Seq::empty()
    } else if items.last() == item {
        without(items.drop_last(), item)
    } else {
        without(items.drop_last(), item).push(items.last())
    }
}

/// The sequence with `item` at its end, unless it is in it already.
pub open spec fn with<A>(items: Seq<A>, item: A) -> Seq<A> {
    if items.contains(item) {
        items
    } else {
        items.push(item)
    }
}

/// `calls` holds one invocation for each table of `tables`, in order: what
/// `event` means for that table.
pub open spec fn invocations_of(
    tables: Seq<Observer>,
    event: PlayerEvent,
    calls: Seq<Invocation>,
) -> bool {
    &&& calls.len() == tables.len()
    &&& forall|i: int| 0 <= i < tables.len() ==> #[trigger] calls[i] == tables[i].invocation(event)
}

/// `calls` holds one invocation for each table of `tables`, in order, where
/// the event can be marshalled, and nothing where it cannot.
pub open spec fn state_machine_invocations_of(
    tables: Seq<StateMachineObserver>,
    event: StateMachineEvent,
    calls: Seq<Invocation>,
) -> bool {
    if event.is_encodable() {
        &&& calls.len() == tables.len()
        &&& forall|i: int| 0 <= i < tables.len() ==> tables[i].invokes(event, #[trigger] calls[i])
    } else {
        calls.len() == 0
    }
}

/// Subscribes a table: it joins the end of the list unless it is there.
pub fn subscribe(tables: &mut Vec<Observer>, observer: Observer)
    ensures
        final(tables)@ == with(old(tables)@, observer),
{
    let mut i: usize = 0;
    while i < tables.len()
        invariant
            i <= tables@.len(),
            tables@ == old(tables)@,
            forall|j: int| 0 <= j < i ==> tables@[j] != observer,
        decreases tables@.len() - i,
    {
        if tables[i] == observer {
            return ;
        }
        i += 1;
    }
    tables.push(observer);
}

/// Unsubscribes a table: every occurrence leaves the list.
pub fn unsubscribe(tables: &mut Vec<Observer>, observer: Observer)
    ensures
        final(tables)@ == without(old(tables)@, observer),
{
    let mut kept: Vec<Observer> = Vec::new();
    let mut i: usize = 0;
    while i < tables.len()
        invariant
            i <= tables@.len(),
            tables@ == old(tables)@,
            kept@ == without(tables@.subrange(0, i as int), observer),
        decreases tables@.len() - i,
    {
        proof {
            let next = tables@.subrange(0, i + 1);
            assert(next.drop_last() =~= tables@.subrange(0, i as int));
        }
        if tables[i] != observer {
            kept.push(tables[i]);
        }
        i += 1;
    }
    assert(tables@.subrange(0, i as int) =~= tables@);
    *tables = kept;
}

/// Turns an event into invocations, one for every subscribed table, in
/// subscription order.
pub fn notify_all(tables: &Vec<Observer>, event: PlayerEvent) -> (calls: Vec<Invocation>)
    ensures
        invocations_of(tables@, event, calls@),
{
    let mut calls: Vec<Invocation> = Vec::new();
    let mut i: usize = 0;
    while i < tables.len()
        invariant
            i <= tables@.len(),
            calls@.len() == i,
            forall|j: int| 0 <= j < i ==> #[trigger] calls@[j] == tables@[j].invocation(event),
        decreases tables@.len() - i,
    {
        calls.push(tables[i].notify(event));
        i += 1;
    }
    calls
}

/// Subscribes a state machine table: it joins the end of the list unless it
/// is there.
pub fn state_machine_subscribe(
    tables: &mut Vec<StateMachineObserver>,
    observer: StateMachineObserver,
)
    ensures
        final(tables)@ == with(old(tables)@, observer),
{
    let mut i: usize = 0;
    while i < tables.len()
        invariant
            i <= tables@.len(),
            tables@ == old(tables)@,
            forall|j: int| 0 <= j < i ==> tables@[j] != observer,
        decreases tables@.len() - i,
    {
        if tables[i] == observer {
            return ;
        }
        i += 1;
    }
    tables.push(observer);
}

/// Unsubscribes a state machine table: every occurrence leaves the list.
pub fn state_machine_unsubscribe(
    tables: &mut Vec<StateMachineObserver>,
    observer: StateMachineObserver,
)
    ensures
        final(tables)@ == without(old(tables)@, observer),
{
    let mut kept: Vec<StateMachineObserver> = Vec::new();
    let mut i: usize = 0;
    while i < tables.len()
        invariant
            i <= tables@.len(),
            tables@ == old(tables)@,
            kept@ == without(tables@.subrange(0, i as int), observer),
        decreases tables@.len() - i,
    {
        proof {
            let next = tables@.subrange(0, i + 1);
            assert(next.drop_last() =~= tables@.subrange(0, i as int));
        }
        if tables[i] != observer {
            kept.push(tables[i]);
        }
        i += 1;
    }
    assert(tables@.subrange(0, i as int) =~= tables@);
    *tables = kept;
}

/// Turns a state machine event into invocations, one for every subscribed
/// table, in subscription order. An event that cannot be marshalled is skipped: it
/// reaches no table.
pub fn state_machine_notify_all(
    tables: &Vec<StateMachineObserver>,
    event: &StateMachineEvent,
) -> (calls: Vec<Invocation>)
    ensures
        state_machine_invocations_of(tables@, *event, calls@),
{
    let mut calls: Vec<Invocation> = Vec::new();
    let mut i: usize = 0;
    while i < tables.len()
        invariant
            i <= tables@.len(),
            calls@.len() == i,
            i > 0 ==> event.is_encodable(),
            forall|j: int| 0 <= j < i ==> tables@[j].invokes(*event, #[trigger] calls@[j]),
        decreases tables@.len() - i,
    {
        match tables[i].notify(event) {
            Some(call) => calls.push(call),
            None => {
                return Vec::new();
            },
        }
        i += 1;
    }
    calls
}

/// A table that was unsubscribed is not in the list, and every other table
/// is in it exactly if it was before.
pub proof fn lemma_without_contains<A>(items: Seq<A>, item: A, other: A)
    ensures
        !without(items, item).contains(item),
        other != item ==> (without(items, item).contains(other) <==> items.contains(other)),
    decreases items.len(),
{
    if items.len() > 0 {
        let rest = items.drop_last();
        lemma_without_contains(rest, item, other);
        let kept = without(rest, item);
        if items.last() != item {
            assert forall|x: A| kept.push(items.last()).contains(x) <==> (kept.contains(x) || x
                == items.last()) by {
                if kept.contains(x) {
                    let k = choose|k: int| 0 <= k < kept.len() && kept[k] == x;
                    assert(kept.push(items.last())[k] == x);
                }
                if x == items.last() {
                    assert(kept.push(items.last())[kept.len() as int] == x);
                }
            }
        }
        assert forall|x: A| items.contains(x) <==> (rest.contains(x) || x == items.last()) by {
            if rest.contains(x) {
                let k = choose|k: int| 0 <= k < rest.len() && rest[k] == x;
                assert(items[k] == x);
            }
            if x == items.last() {
                assert(items[items.len() - 1] == x);
            }
            if items.contains(x) {
                let k = choose|k: int| 0 <= k < items.len() && items[k] == x;
                if k < items.len() - 1 {
                    assert(rest[k] == x);
                }
            }
        }
    }
}

/// Unsubscribing keeps a list free of repetitions so.
pub proof fn lemma_without_no_duplicates<A>(items: Seq<A>, item: A)
    requires
        items.no_duplicates(),
    ensures
        without(items, item).no_duplicates(),
    decreases items.len(),
{
    if items.len() > 0 {
        let rest = items.drop_last();
        assert(rest.no_duplicates());
        lemma_without_no_duplicates(rest, item);
        if items.last() != item {
            lemma_without_contains(rest, item, items.last());
            assert(!rest.contains(items.last())) by {
                if rest.contains(items.last()) {
                    let k = choose|k: int| 0 <= k < rest.len() && rest[k] == items.last();
                    assert(items[k] == items[items.len() - 1]);
                }
            }
        }
    }
}

/// Subscribing keeps a list free of repetitions so, and the table is in the
/// list afterwards.
pub proof fn lemma_with_no_duplicates<A>(items: Seq<A>, item: A)
    requires
        items.no_duplicates(),
    ensures
        with(items, item).no_duplicates(),
        with(items, item).contains(item),
{
    if !items.contains(item) {
        assert(items.push(item)[items.len() as int] == item);
    }
}

/// In a list free of repetitions a subscribed table stands at one place
/// only, so an event brings it exactly one invocation: the one at that
/// place, which is what the event means for that table.
pub proof fn lemma_one_invocation_per_table(
    tables: Seq<Observer>,
    event: PlayerEvent,
    calls: Seq<Invocation>,
    observer: Observer,
)
    requires
        tables.no_duplicates(),
        tables.contains(observer),
        invocations_of(tables, event, calls),
    ensures
        calls.len() == tables.len(),
        calls[tables.index_of(observer)] == observer.invocation(event),
        forall|i: int| 0 <= i < tables.len() && tables[i] == observer ==> i == tables.index_of(observer),
{
    let at = tables.index_of(observer);
    assert(0 <= at < tables.len() && tables[at] == observer);
}

} // verus!
