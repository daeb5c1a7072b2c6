use lagrappe::event_handler::{
    Event, EventBusImpl, EventError, EventListenerImpl, Heard, Listen, Publish,
    EVENT_BUS_CAPACITY,
};

fn installed(n: usize) -> Event {
    Event::PluginInstalled(format!("plugin-{}", n))
}

fn numbered(count: usize) -> Vec<Event> {
    (0..count).map(installed).collect()
}

#[test]
fn bus_capacity_is_one_hundred() {
    assert_eq!(EVENT_BUS_CAPACITY, 100);
}

#[test]
fn new_bus_is_empty_and_idle() {
    let mut bus = EventBusImpl::new();
    assert_eq!(bus.pending(), 0);
    assert_eq!(bus.next_event(), Listen::Idle);
    assert_eq!(bus.pending(), 0);
}

#[test]
fn events_published_before_listening_arrive_in_order() {
    let mut bus = EventBusImpl::new();
    let events = vec![
        Event::PluginInstalled("a".to_string()),
        Event::PluginLoaded("a".to_string()),
        Event::PluginInstalled("b".to_string()),
        Event::PluginInstalled("a".to_string()),
        Event::PluginLoaded("b".to_string()),
    ];
    for event in events.iter() {
        assert_eq!(bus.publish(event.clone()), Ok(Publish::Accepted));
    }
    assert_eq!(bus.pending(), 5);
    let mut listener = EventListenerImpl::new();
    let heard = listener.listen(&mut bus);
    assert_eq!(heard, Heard { events, closed: false });
    assert!(!listener.is_finished());
    assert_eq!(bus.pending(), 0);
}

#[test]
fn single_steps_deliver_oldest_first() {
    let mut bus = EventBusImpl::new();
    for event in numbered(3) {
        assert_eq!(bus.publish(event), Ok(Publish::Accepted));
    }
    assert_eq!(bus.next_event(), Listen::Event(installed(0)));
    assert_eq!(bus.publish(installed(3)), Ok(Publish::Accepted));
    assert_eq!(bus.next_event(), Listen::Event(installed(1)));
    assert_eq!(bus.next_event(), Listen::Event(installed(2)));
    assert_eq!(bus.next_event(), Listen::Event(installed(3)));
    assert_eq!(bus.next_event(), Listen::Idle);
}

#[test]
fn full_bus_hands_the_event_back() {
    let mut bus = EventBusImpl::new();
    for event in numbered(100) {
        assert_eq!(bus.publish(event), Ok(Publish::Accepted));
    }
    assert_eq!(bus.pending(), 100);
    assert_eq!(bus.publish(installed(100)), Ok(Publish::Full(installed(100))));
    assert_eq!(bus.pending(), 100);
    assert_eq!(bus.next_event(), Listen::Event(installed(0)));
    assert_eq!(bus.publish(installed(100)), Ok(Publish::Accepted));
    assert_eq!(bus.publish(installed(101)), Ok(Publish::Full(installed(101))));
    let mut listener = EventListenerImpl::new();
    let heard = listener.listen(&mut bus);
    assert_eq!(heard.events, (1..=100).map(installed).collect::<Vec<Event>>());
    assert!(!heard.closed);
}

#[test]
fn a_full_bus_is_delivered_whole() {
    let mut bus = EventBusImpl::new();
    for event in numbered(100) {
        assert_eq!(bus.publish(event), Ok(Publish::Accepted));
    }
    let mut listener = EventListenerImpl::new();
    assert_eq!(listener.listen(&mut bus), Heard { events: numbered(100), closed: false });
    assert_eq!(listener.listen(&mut bus), Heard { events: vec![], closed: false });
}

#[test]
fn listening_ends_when_the_publishers_are_gone() {
    let mut bus = EventBusImpl::new();
    for event in numbered(4) {
        assert_eq!(bus.publish(event), Ok(Publish::Accepted));
    }
    bus.close_publishers();
    assert_eq!(bus.pending(), 4);
    let mut listener = EventListenerImpl::new();
    assert_eq!(listener.listen(&mut bus), Heard { events: numbered(4), closed: true });
    assert!(listener.is_finished());
    assert_eq!(listener.listen(&mut bus), Heard { events: vec![], closed: true });
    assert_eq!(bus.publish(installed(9)), Err(EventError::ErrorPublishingEvent));
    assert_eq!(bus.pending(), 0);
}

#[test]
fn empty_bus_without_publishers_is_closed() {
    let mut bus = EventBusImpl::new();
    bus.close_publishers();
    assert_eq!(bus.next_event(), Listen::Closed);
    assert_eq!(bus.next_event(), Listen::Closed);
}

#[test]
fn closed_bus_still_hands_out_what_waits() {
    let mut bus = EventBusImpl::new();
    assert_eq!(bus.publish(installed(1)), Ok(Publish::Accepted));
    bus.close_publishers();
    assert_eq!(bus.next_event(), Listen::Event(installed(1)));
    assert_eq!(bus.next_event(), Listen::Closed);
}

#[test]
fn publishing_fails_once_the_listener_is_gone() {
    let mut bus = EventBusImpl::new();
    assert_eq!(bus.publish(installed(1)), Ok(Publish::Accepted));
    bus.close_listener();
    assert_eq!(bus.pending(), 0);
    assert_eq!(bus.publish(installed(2)), Err(EventError::ErrorPublishingEvent));
    assert_eq!(bus.pending(), 0);
}

#[test]
fn publishing_fails_once_the_publishers_are_declared_gone() {
    let mut bus = EventBusImpl::new();
    bus.close_publishers();
    assert_eq!(bus.publish(installed(1)), Err(EventError::ErrorPublishingEvent));
    assert_eq!(bus.pending(), 0);
}

#[test]
fn finished_listener_takes_nothing() {
    let mut first = EventBusImpl::new();
    first.close_publishers();
    let mut listener = EventListenerImpl::new();
    assert!(listener.listen(&mut first).closed);
    let mut second = EventBusImpl::new();
    assert_eq!(second.publish(installed(1)), Ok(Publish::Accepted));
    assert_eq!(listener.listen(&mut second), Heard { events: vec![], closed: true });
    assert_eq!(second.pending(), 1);
    assert_eq!(second.publish(installed(2)), Ok(Publish::Accepted));
}

#[test]
fn events_read_in_words() {
    assert_eq!(Event::PluginInstalled("sample".to_string()).describe(), "plugin installed: sample");
    assert_eq!(Event::PluginLoaded("sample".to_string()).describe(), "plugin loaded: sample");
    assert_eq!(Event::PluginLoaded(String::new()).describe(), "plugin loaded: ");
}
