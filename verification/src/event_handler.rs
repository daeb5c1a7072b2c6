//! The event bus: a bounded queue between those who publish lifecycle events
//! and the one listener that takes them, oldest first.
//!
//! The bus never waits. Where a publisher has to wait for room, or the
//! listener for an event, it says so, and the host comes back later.

use std::collections::VecDeque;
use vstd::prelude::*;

verus! {

/// How many events the bus holds before publishers have to wait.
pub const EVENT_BUS_CAPACITY: usize = 100;

/// Something that happened in the life of a plugin.
#[derive(Clone, Debug, PartialEq, Eq)]
pub enum Event {
    /// The plugin of this name was installed.
    PluginInstalled(String),
    /// The plugin of this name was loaded and registered.
    PluginLoaded(String),
}

/// An event as plain values.
pub enum EventView {
    PluginInstalled(Seq<char>),
    PluginLoaded(Seq<char>),
}

impl View for Event {
    type V = EventView;

    open spec fn view(&self) -> EventView {
        match self {
            Event::PluginInstalled(name) => EventView::PluginInstalled(name@),
            Event::PluginLoaded(name) => EventView::PluginLoaded(name@),
        }
    }
}

impl Event {
    pub open spec fn describe_spec(&self) -> Seq<char> {
        match self {
            Event::PluginInstalled(name) => "plugin installed: "@ + name@,
            Event::PluginLoaded(name) => "plugin loaded: "@ + name@,
        }
    }

    /// The event in words.
    pub fn describe(&self) -> (text: String)
        ensures
            text@ == self.describe_spec(),
    {
        match self {
            Event::PluginInstalled(name) => {
                let mut text = String::from_str("plugin installed: ");
                text.append(name.as_str());
                text
            },
            Event::PluginLoaded(name) => {
                let mut text = String::from_str("plugin loaded: ");
                text.append(name.as_str());
                text
            },
        }
    }
}

#[derive(Clone, Copy, Debug, PartialEq, Eq, Structural)]
pub enum EventError {
    /// Nobody will ever take the event: the listener is gone.
    ErrorPublishingEvent,
}

/// What became of an event that was handed to the bus.
#[derive(Debug, PartialEq, Eq)]
pub enum Publish {
    /// The event is queued.
    Accepted,
    /// The bus is full. The event comes back, to be published again once the
    /// listener has made room.
    Full(Event),
}

/// What the listener finds when it turns to the bus.
#[derive(Debug, PartialEq, Eq)]
pub enum Listen {
    /// The oldest event that was waiting.
    Event(Event),
    /// Nothing is waiting, but a publisher may still bring something.
    Idle,
    /// Nothing is waiting and every publisher is gone.
    Closed,
}

/// The bus as plain values.
pub struct BusView {
    /// The events that wait for the listener, oldest first.
    pub pending: Seq<Event>,
    pub capacity: nat,
    /// The listener has ended for good.
    pub listener_gone: bool,
    /// Every publisher has let go of the bus.
    pub publishers_gone: bool,
}

/// A new bus: empty, with a listener and a publisher.
pub open spec fn new_bus() -> BusView {
    BusView {
        pending: Seq::empty(),
        capacity: EVENT_BUS_CAPACITY as nat,
        listener_gone: false,
        publishers_gone: false,
    }
}

/// Whether the bus takes events at all.
pub open spec fn open_for_publishing(bus: BusView) -> bool {
    !bus.listener_gone && !bus.publishers_gone
}

/// The bus after `event` was handed to it, and what became of the event.
pub open spec fn publish_spec(bus: BusView, event: Event) -> (BusView, Result<Publish, EventError>) {
    if !open_for_publishing(bus) {
        (bus, Err(EventError::ErrorPublishingEvent))
    } else if bus.pending.len() >= bus.capacity {
        (bus, Ok(Publish::Full(event)))
    } else {
        (BusView { pending: bus.pending.push(event), ..bus }, Ok(Publish::Accepted))
    }
}

/// The bus after the listener turned to it, and what the listener found.
pub open spec fn next_event_spec(bus: BusView) -> (BusView, Listen) {
    if bus.pending.len() > 0 {
        (BusView { pending: bus.pending.drop_first(), ..bus }, Listen::Event(bus.pending[0]))
    } else if bus.publishers_gone {
        (bus, Listen::Closed)
    } else {
        (bus, Listen::Idle)
    }
}

/// The bus after the listener left it: what still waited is let go.
pub open spec fn close_listener_spec(bus: BusView) -> BusView {
    BusView { pending: Seq::empty(), listener_gone: true, ..bus }
}

/// The bus after its last publisher left it: what waits stays for the
/// listener.
pub open spec fn close_publishers_spec(bus: BusView) -> BusView {
    BusView { publishers_gone: true, ..bus }
}

#[derive(Debug)]
pub struct EventBusImpl {
    queue: VecDeque<Event>,
    listener_gone: bool,
    publishers_gone: bool,
}

impl View for EventBusImpl {
    type V = BusView;

    closed spec fn view(&self) -> BusView {
        BusView {
            pending: self.queue@,
            capacity: EVENT_BUS_CAPACITY as nat,
            listener_gone: self.listener_gone,
            publishers_gone: self.publishers_gone,
        }
    }
}

impl EventBusImpl {
    pub fn new() -> (bus: Self)
        ensures
            bus@ == new_bus(),
    {
        EventBusImpl { queue: VecDeque::new(), listener_gone: false, publishers_gone: false }
    }

    /// Hands `event` to the bus. It is queued behind what waits already, or
    /// comes back where the bus is full, or is refused for good where
    /// nobody is left to take it.
    pub fn publish(&mut self, event: Event) -> (outcome: Result<Publish, EventError>)
        ensures
            (final(self)@, outcome) == publish_spec(old(self)@, event),
    {
        if self.listener_gone || self.publishers_gone {
            Err(EventError::ErrorPublishingEvent)
        } else if self.queue.len() >= EVENT_BUS_CAPACITY {
            Ok(Publish::Full(event))
        } else {
            self.queue.push_back(event);
            Ok(Publish::Accepted)
        }
    }

    /// Takes the oldest waiting event, if there is one.
    pub fn next_event(&mut self) -> (found: Listen)
        ensures
            (final(self)@, found) == next_event_spec(old(self)@),
    {
        match self.queue.pop_front() {
            Some(event) => {
                assert(self.queue@ =~= old(self).queue@.drop_first());
                Listen::Event(event)
            },
            None => if self.publishers_gone {
                Listen::Closed
            } else {
                Listen::Idle
            },
        }
    }

    /// The listener is gone for good.
    pub fn close_listener(&mut self)
        ensures
            final(self)@ == close_listener_spec(old(self)@),
    {
        self.queue.clear();
        self.listener_gone = true;
    }

    /// The last publisher is gone.
    pub fn close_publishers(&mut self)
        ensures
            final(self)@ == close_publishers_spec(old(self)@),
    {
        self.publishers_gone = true;
    }

    /// How many events wait for the listener.
    pub fn pending(&self) -> (n: usize)
        ensures
            n == self@.pending.len(),
    {
        self.queue.len()
    }
}

/// What one turn of listening brought.
#[derive(Debug, PartialEq, Eq)]
pub struct Heard {
    /// The events that were waiting, oldest first.
    pub events: Vec<Event>,
    /// Whether listening has ended: nothing waits and no publisher is left.
    pub closed: bool,
}

/// One turn of listening as plain values: whether the listener has ended
/// afterwards, the bus afterwards, and the events that the turn brought.
pub open spec fn listen_spec(finished: bool, bus: BusView) -> (bool, BusView, Seq<Event>) {
    if finished {
        (true, bus, Seq::empty())
    } else if bus.publishers_gone {
        (true, close_listener_spec(bus), bus.pending)
    } else {
        (false, BusView { pending: Seq::empty(), ..bus }, bus.pending)
    }
}

/// The one consumer of a bus.
#[derive(Debug)]
pub struct EventListenerImpl {
    finished: bool,
}

impl EventListenerImpl {
    /// Whether listening has ended.
    pub closed spec fn finished(&self) -> bool {
        self.finished
    }

    pub fn new() -> (listener: Self)
        ensures
            !listener.finished(),
    {
        EventListenerImpl { finished: false }
    }

    /// Whether listening has ended.
    pub fn is_finished(&self) -> (finished: bool)
        ensures
            finished == self.finished(),
    {
        self.finished
    }

    /// One turn of listening: takes every event that waits on `bus`, oldest
    /// first. Where nothing is left and every publisher is gone, listening
    /// ends, and the bus learns that its listener is gone. A listener that
    /// has ended takes nothing.
    pub fn listen(&mut self, bus: &mut EventBusImpl) -> (heard: Heard)
        ensures
            (final(self).finished(), final(bus)@, heard.events@) == listen_spec(
                old(self).finished(),
                old(bus)@,
            ),
            heard.closed == final(self).finished(),
    {
        let mut events: Vec<Event> = Vec::new();
        if self.finished {
            return Heard { events, closed: true };
        }
        loop
            invariant
                !old(self).finished(),
                !self.finished(),
                events@ + bus@.pending == old(bus)@.pending,
                bus@.capacity == old(bus)@.capacity,
                bus@.listener_gone == old(bus)@.listener_gone,
                bus@.publishers_gone == old(bus)@.publishers_gone,
            decreases bus@.pending.len(),
        {
            let ghost before = bus@;
            match bus.next_event() {
                Listen::Event(event) => {
                    events.push(event);
                    assert(events@ + bus@.pending =~= old(bus)@.pending) by {
                        assert(before.pending =~= seq![event] + before.pending.drop_first());
                    }
                },
                Listen::Idle => {
                    assert(events@ =~= old(bus)@.pending);
                    assert(bus@.pending =~= Seq::<Event>::empty());
                    return Heard { events, closed: false };
                },
                Listen::Closed => {
                    assert(events@ =~= old(bus)@.pending);
                    self.finished = true;
                    bus.close_listener();
                    return Heard { events, closed: true };
                },
            }
        }
    }
}

/// The bus after each of `events` was handed to it in turn.
pub open spec fn publish_all(bus: BusView, events: Seq<Event>) -> BusView
    decreases events.len(),
{
    if events.len() == 0 {
        bus
    } else {
        publish_all(publish_spec(bus, events[0]).0, events.drop_first())
    }
}

/// Events that are handed to an open bus with room for all of them are
/// queued behind what waits already, in the order in which they came.
pub proof fn publish_all_appends(bus: BusView, events: Seq<Event>)
    requires
        open_for_publishing(bus),
        bus.pending.len() + events.len() <= bus.capacity,
    ensures
        publish_all(bus, events) == (BusView { pending: bus.pending + events, ..bus }),
    decreases events.len(),
{
    if events.len() == 0 {
        assert(bus.pending + events =~= bus.pending);
    } else {
        let next = publish_spec(bus, events[0]).0;
        publish_all_appends(next, events.drop_first());
        assert(next.pending + events.drop_first() =~= bus.pending + events);
    }
}

/// First in, first out: events that are published on a new bus before the
/// listener turns to it, as many as the bus has room for, are all delivered
/// by the listener's first turn, in the order in which they were published.
/// The listener then waits for more, and the bus is empty.
pub proof fn published_events_arrive_in_order(events: Seq<Event>)
    requires
        events.len() <= EVENT_BUS_CAPACITY,
    ensures
        listen_spec(false, publish_all(new_bus(), events)) == (false, new_bus(), events),
{
    publish_all_appends(new_bus(), events);
    assert(new_bus().pending + events =~= events);
}

/// Where the publishers have gone after publishing, the listener still gets
/// every event in order, and its turn ends the listening.
pub proof fn published_events_arrive_before_close(events: Seq<Event>)
    requires
        events.len() <= EVENT_BUS_CAPACITY,
    ensures
        listen_spec(false, close_publishers_spec(publish_all(new_bus(), events))) == (
            true,
            close_listener_spec(close_publishers_spec(new_bus())),
            events,
        ),
{
    publish_all_appends(new_bus(), events);
    assert(new_bus().pending + events =~= events);
}

/// Something that is done to a bus while both sides are at work.
pub enum BusStep {
    /// A publisher hands this event to the bus.
    Publish(Event),
    /// The listener turns to the bus for one event.
    Take,
    /// The last publisher leaves.
    PublishersLeave,
}

/// A bus together with its history: the events that it accepted and the
/// events that it delivered, each in order.
pub struct BusRun {
    pub bus: BusView,
    pub accepted: Seq<Event>,
    pub delivered: Seq<Event>,
}

/// A new bus without history.
pub open spec fn new_run() -> BusRun {
    BusRun { bus: new_bus(), accepted: Seq::empty(), delivered: Seq::empty() }
}

/// The bus and its history after one step.
pub open spec fn run_step(run: BusRun, step: BusStep) -> BusRun {
    match step {
        BusStep::Publish(event) => {
            let (bus, outcome) = publish_spec(run.bus, event);
            BusRun {
                bus,
                accepted: if outcome == Ok::<Publish, EventError>(Publish::Accepted) {
                    run.accepted.push(event)
                } else {
                    run.accepted
                },
                delivered: run.delivered,
            }
        },
        BusStep::Take => {
            let (bus, found) = next_event_spec(run.bus);
            BusRun {
                bus,
                accepted: run.accepted,
                delivered: match found {
                    Listen::Event(event) => run.delivered.push(event),
                    _ => run.delivered,
                },
            }
        },
        BusStep::PublishersLeave => BusRun { bus: close_publishers_spec(run.bus), ..run },
    }
}

/// The bus and its history after the steps were taken in turn.
pub open spec fn run_steps(run: BusRun, steps: Seq<BusStep>) -> BusRun
    decreases steps.len(),
{
    if steps.len() == 0 {
        run
    } else {
        run_steps(run_step(run, steps[0]), steps.drop_first())
    }
}

/// What holds of a bus and its history at any time: what was accepted is
/// what was delivered followed by what still waits, and no more waits than
/// the bus has room for.
pub open spec fn run_in_order(run: BusRun) -> bool {
    &&& run.accepted == run.delivered + run.bus.pending
    &&& run.bus.pending.len() <= run.bus.capacity
}

proof fn lemma_steps_keep_order(run: BusRun, steps: Seq<BusStep>)
    requires
        run_in_order(run),
    ensures
        run_in_order(run_steps(run, steps)),
    decreases steps.len(),
{
    if steps.len() > 0 {
        let next = run_step(run, steps[0]);
        match steps[0] {
            BusStep::Publish(event) => {
                assert(run.delivered + run.bus.pending.push(event) =~= (run.delivered
                    + run.bus.pending).push(event));
            },
            BusStep::Take => {
                if run.bus.pending.len() > 0 {
                    assert(run.delivered.push(run.bus.pending[0]) + run.bus.pending.drop_first()
                        =~= run.delivered + run.bus.pending);
                }
            },
            BusStep::PublishersLeave => {},
        }
        lemma_steps_keep_order(next, steps.drop_first());
    }
}

/// Events are delivered in the order in which they were accepted, however
/// publishing and listening take turns: at any time the events delivered so
/// far are the first of those accepted so far, and the rest wait on the bus,
/// never more than it has room for. No accepted event is lost, none is
/// delivered twice, and none overtakes another.
pub proof fn delivery_follows_acceptance(steps: Seq<BusStep>)
    ensures
        run_in_order(run_steps(new_run(), steps)),
        run_steps(new_run(), steps).delivered.is_prefix_of(run_steps(new_run(), steps).accepted),
{
    assert(new_run().delivered + new_run().bus.pending =~= new_run().accepted);
    lemma_steps_keep_order(new_run(), steps);
    let end = run_steps(new_run(), steps);
    assert(end.delivered =~= end.accepted.subrange(0, end.delivered.len() as int));
}

} // verus!
