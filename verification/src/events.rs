//! Event categories and recurrence settings.

use vstd::prelude::*;

use crate::achievement::{contains_id, has_id, texts};
use crate::datetime::EventDate;

verus! {

/// Kind of community event a mosque hosts.
#[derive(Clone, Copy, Debug, PartialEq, Eq, Structural)]
pub enum EventCategory {
    Halaqah,
    Fundraiser,
    Youth,
    Lecture,
    Community,
    Workshop,
    Seminar,
    Conference,
    Sports,
    Social,
    Volunteer,
    Iftar,
    Taraweeh,
    Eid,
}

/// How often an event repeats.
#[derive(Clone, Copy, Debug, PartialEq, Eq, Structural)]
pub enum EventRecurrence {
    Daily,
    Weekly,
    Biweekly,
    Weekdays,
    Weekends,
    Monthly,
    Quaterly,
    Yearly,
}

/// For how long a recurring event keeps repeating.
#[derive(Clone, Copy, Debug, PartialEq, Eq, Structural)]
pub enum Interval {
    OneMonth,
    ThreeMonths,
    SixMonths,
    OneYear,
    Indefinite,
}

/// An event as the client sees it.
#[derive(Clone, Debug)]
pub struct EventDetails {
    pub id: String,
    pub title: String,
    pub description: String,
    pub category: EventCategory,
    pub date: EventDate,
    pub speaker: Option<String>,
}

/// An event on a member's feed, with whether the member attends it.
#[derive(Clone, Debug)]
pub struct PersonalEvent {
    pub event: EventDetails,
    pub rsvp: bool,
}

impl PersonalEvent {
    pub fn new(event: EventDetails, rsvp: bool) -> (personal: Self)
        ensures
            personal.event == event,
            personal.rsvp == rsvp,
    {
        PersonalEvent { event, rsvp }
    }
}

/// An event as its mosque's admins see it, with how many members attend.
#[derive(Clone, Debug)]
pub struct EventSummary {
    pub event: EventDetails,
    pub rsvp_count: usize,
}

impl EventSummary {
    pub fn new(event: EventDetails, rsvp_count: usize) -> (summary: Self)
        ensures
            summary.event == event,
            summary.rsvp_count == rsvp_count,
    {
        EventSummary { event, rsvp_count }
    }
}

/// A mosque's events: summaries for its admins, a personal view for others.
#[derive(Clone, Debug)]
pub enum FetchedEvents {
    Summary(Vec<EventSummary>),
    Personal(Vec<PersonalEvent>),
}

/// Each event, in order, with whether its id is among the events the member
/// attends.
pub fn mark_attendance(events: Vec<EventDetails>, attending: &Vec<String>) -> (personal: Vec<
    PersonalEvent,
>)
    ensures
        personal@.len() == events@.len(),
        forall|i: int|
            0 <= i < events@.len() ==> (#[trigger] personal@[i]).event == events@[i]
                && personal@[i].rsvp == has_id(texts(attending@), events@[i].id@),
{
    let ghost all = events@;
    let mut rest = events;
    let mut personal: Vec<PersonalEvent> = Vec::new();
    while rest.len() > 0
        invariant
            personal@.len() + rest@.len() == all.len(),
            rest@ == all.subrange(personal@.len() as int, all.len() as int),
            forall|i: int|
                0 <= i < personal@.len() ==> (#[trigger] personal@[i]).event == all[i]
                    && personal@[i].rsvp == has_id(texts(attending@), all[i].id@),
        decreases rest@.len(),
    {
        let event = rest.remove(0);
        let rsvp = contains_id(attending, &event.id);
        personal.push(PersonalEvent::new(event, rsvp));
    }
    personal
}

} // verus!
