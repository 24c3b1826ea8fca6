//! The notification relay: takes internal events in arrival order and
//! forwards their translations to an external sink until either end closes.
//!
//! The relay decides; the task around it waits on the queue and the sink.
use vstd::prelude::*;
use crate::events::{translate, translate_spec, ApiEvent, SyncEvent};

verus! {

/// The life cycle of a relay. `Stopped` is terminal.
#[derive(Clone, Copy, Debug, PartialEq, Eq, Structural)]
pub enum RelayState {
    Idle,
    Running,
    Stopped,
}

/// What the relay learns: an event arrived, the event queue closed for good,
/// or the sink refused a notification because no one listens any more.
#[derive(Clone, Debug)]
pub enum RelayInput {
    Event(SyncEvent),
    QueueClosed,
    SinkClosed,
}

/// What the relay asks of the task around it.
#[derive(Clone, Debug, PartialEq, Eq)]
pub enum RelayAction {
    /// Send this notification to the sink.
    Forward(ApiEvent),
    /// Leave the loop; this is a normal end, not an error.
    Exit,
    /// Nothing to do.
    Ignore,
}

/// The next state and the action for an input.
pub open spec fn relay_next(s: RelayState, input: RelayInput) -> (RelayState, RelayAction) {
    match s {
        RelayState::Running => match input {
            RelayInput::Event(e) => (RelayState::Running, RelayAction::Forward(translate_spec(e))),
            _ => (RelayState::Stopped, RelayAction::Exit),
        },
        _ => (s, RelayAction::Ignore),
    }
}

/// The notifications forwarded, in order, when the relay in state `s` is
/// fed `inputs`.
pub open spec fn forwarded(s: RelayState, inputs: Seq<RelayInput>) -> Seq<ApiEvent>
    decreases inputs.len(),
{
    if inputs.len() == 0 {
        Seq::empty()
    } else {
        let (next, action) = relay_next(s, inputs[0]);
        let rest = forwarded(next, inputs.drop_first());
        match action {
            RelayAction::Forward(n) => seq![n] + rest,
            _ => rest,
        }
    }
}

/// The inputs that a queue delivering `events` gives.
pub open spec fn arrivals(events: Seq<SyncEvent>) -> Seq<RelayInput> {
    events.map_values(|e: SyncEvent| RelayInput::Event(e))
}

/// A relay and its state.
pub struct NotificationRelay {
    state: RelayState,
}

impl View for NotificationRelay {
    type V = RelayState;

    closed spec fn view(&self) -> RelayState {
        self.state
    }
}

impl NotificationRelay {
    /// A relay with no consuming task yet.
    pub fn new() -> (r: Self)
        ensures
            r@ == RelayState::Idle,
    {
        NotificationRelay { state: RelayState::Idle }
    }

    /// Starts the relay if it is idle; returns whether it did. A stopped
    /// relay never runs again.
    pub fn start(&mut self) -> (started: bool)
        ensures
            started == (old(self)@ == RelayState::Idle),
            final(self)@ == if started {
                RelayState::Running
            } else {
                old(self)@
            },
    {
        if self.state == RelayState::Idle {
            self.state = RelayState::Running;
            true
        } else {
            false
        }
    }

    /// The current state.
    pub fn state(&self) -> (r: RelayState)
        ensures
            r == self@,
    {
        self.state
    }

    /// Takes one input and says what to do with it.
    pub fn step(&mut self, input: RelayInput) -> (action: RelayAction)
        ensures
            (final(self)@, action) == relay_next(old(self)@, input),
    {
        match self.state {
            RelayState::Running => match input {
                RelayInput::Event(e) => RelayAction::Forward(translate(e)),
                _ => {
                    self.state = RelayState::Stopped;
                    RelayAction::Exit
                },
            },
            _ => RelayAction::Ignore,
        }
    }
}

/// A running relay forwards one notification per event, each the
/// translation of its event, in arrival order: nothing is reordered,
/// batched or dropped.
pub proof fn lemma_relay_preserves_order(events: Seq<SyncEvent>)
    ensures
        forwarded(RelayState::Running, arrivals(events)) == events.map_values(
            |e: SyncEvent| translate_spec(e),
        ),
    decreases events.len(),
{
    let f = |e: SyncEvent| translate_spec(e);
    if events.len() == 0 {
        assert(arrivals(events) =~= Seq::empty());
        assert(events.map_values(f) =~= Seq::empty());
    } else {
        let tail = events.drop_first();
        assert(arrivals(events).drop_first() =~= arrivals(tail));
        assert(arrivals(events)[0] == RelayInput::Event(events[0]));
        lemma_relay_preserves_order(tail);
        assert(events.map_values(f) =~= seq![translate_spec(events[0])] + tail.map_values(f));
    }
}

/// A stopped relay forwards nothing more, whatever it is fed.
pub proof fn lemma_stopped_forwards_nothing(inputs: Seq<RelayInput>)
    ensures
        forwarded(RelayState::Stopped, inputs) == Seq::<ApiEvent>::empty(),
    decreases inputs.len(),
{
    if inputs.len() > 0 {
        lemma_stopped_forwards_nothing(inputs.drop_first());
    }
}

/// Closing the queue, or the sink, makes a running relay exit normally and
/// for good: it stops, and forwards nothing after that.
pub proof fn lemma_cooperative_shutdown(closing: RelayInput, later: Seq<RelayInput>)
    requires
        closing is QueueClosed || closing is SinkClosed,
    ensures
        relay_next(RelayState::Running, closing) == (RelayState::Stopped, RelayAction::Exit),
        forwarded(RelayState::Running, seq![closing] + later) == Seq::<ApiEvent>::empty(),
{
    let inputs = seq![closing] + later;
    assert(inputs.drop_first() =~= later);
    lemma_stopped_forwards_nothing(later);
}

} // verus!
