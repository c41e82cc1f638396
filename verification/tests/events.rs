use merzah::datetime::EventDate;
use merzah::events::{mark_attendance, EventCategory, EventDetails, EventSummary, FetchedEvents, PersonalEvent};

fn event(id: &str) -> EventDetails {
    EventDetails {
        id: id.to_string(),
        title: format!("Event {id}"),
        description: "A gathering at the mosque".to_string(),
        category: EventCategory::Halaqah,
        date: EventDate { year: 2024, month: 3, day: 8, seconds: 19 * 3600, nanos: 0, offset_seconds: 0 },
        speaker: None,
    }
}

#[test]
fn attendance_is_marked_per_event() {
    let attending = vec!["events:b".to_string(), "events:z".to_string()];
    let marked = mark_attendance(vec![event("events:a"), event("events:b"), event("events:c")], &attending);
    assert_eq!(marked.len(), 3);
    assert_eq!(marked.iter().map(|p| p.event.id.as_str()).collect::<Vec<_>>(), vec!["events:a", "events:b", "events:c"]);
    assert_eq!(marked.iter().map(|p| p.rsvp).collect::<Vec<_>>(), vec![false, true, false]);
    assert!(mark_attendance(Vec::new(), &attending).is_empty());
}

#[test]
fn event_views_keep_their_parts() {
    let personal = PersonalEvent::new(event("events:a"), true);
    assert!(personal.rsvp);
    assert_eq!(personal.event.id, "events:a");
    let summary = EventSummary::new(event("events:b"), 12);
    assert_eq!(summary.rsvp_count, 12);
    match FetchedEvents::Summary(vec![summary]) {
        FetchedEvents::Summary(list) => assert_eq!(list[0].event.id, "events:b"),
        FetchedEvents::Personal(_) => panic!("expected summaries"),
    }
}
