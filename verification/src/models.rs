//! The records that a search produces, their mathematical views, and
//! structural equality on them.

use vstd::prelude::*;
use vstd::std_specs::cmp::PartialEqSpecImpl;

verus! {

/// One row of a listing page: the identifier of a person and the two parts
/// of the displayed name.
#[derive(Debug)]
pub struct PersonRow {
    pub person_id: String,
    pub firstname: String,
    pub lastname: String,
}

/// A person with everything that the detail page tells.
#[derive(Debug, Eq, Hash)]
pub struct Person {
    pub person_id: String,
    pub firstname: String,
    pub lastname: String,
    pub events: Vec<Event>,
    pub sources: Vec<Source>,
}

/// One biographical event. The timestamp is free text.
#[derive(Debug, Eq, Hash)]
pub struct Event {
    pub event_type: String,
    pub timestamp: String,
    pub location: Option<String>,
    pub sources: Vec<usize>,
}

/// One entry of a person's list of sources.
#[derive(Debug, Eq, Hash)]
pub struct Source {
    pub num: usize,
    pub description: String,
}

pub struct PersonRowView {
    pub person_id: Seq<char>,
    pub firstname: Seq<char>,
    pub lastname: Seq<char>,
}

pub struct PersonView {
    pub person_id: Seq<char>,
    pub firstname: Seq<char>,
    pub lastname: Seq<char>,
    pub events: Seq<EventView>,
    pub sources: Seq<SourceView>,
}

pub struct EventView {
    pub event_type: Seq<char>,
    pub timestamp: Seq<char>,
    pub location: Option<Seq<char>>,
    pub sources: Seq<nat>,
}

pub struct SourceView {
    pub num: nat,
    pub description: Seq<char>,
}

/// The characters of an optional string.
pub open spec fn text_of(text: Option<String>) -> Option<Seq<char>> {
    match text {
        Some(t) => Some(t@),
        None => None,
    }
}

/// The views of a sequence of events, in order.
pub open spec fn event_views(events: Seq<Event>) -> Seq<EventView> {
    events.map_values(|e: Event| e@)
}

/// The views of a sequence of sources, in order.
pub open spec fn source_views(sources: Seq<Source>) -> Seq<SourceView> {
    sources.map_values(|s: Source| s@)
}

/// The views of a sequence of people, in order.
pub open spec fn person_views(people: Seq<Person>) -> Seq<PersonView> {
    people.map_values(|p: Person| p@)
}

/// The views of a sequence of listing rows, in order.
pub open spec fn row_views(rows: Seq<PersonRow>) -> Seq<PersonRowView> {
    rows.map_values(|r: PersonRow| r@)
}

/// Citation numbers as mathematical naturals.
pub open spec fn numbers(refs: Seq<usize>) -> Seq<nat> {
    refs.map_values(|n: usize| n as nat)
}

impl View for PersonRow {
    type V = PersonRowView;

    open spec fn view(&self) -> PersonRowView {
        PersonRowView {
            person_id: self.person_id@,
            firstname: self.firstname@,
            lastname: self.lastname@,
        }
    }
}

impl View for Source {
    type V = SourceView;

    open spec fn view(&self) -> SourceView {
        SourceView { num: self.num as nat, description: self.description@ }
    }
}

impl View for Event {
    type V = EventView;

    open spec fn view(&self) -> EventView {
        EventView {
            event_type: self.event_type@,
            timestamp: self.timestamp@,
            location: text_of(self.location),
            sources: numbers(self.sources@),
        }
    }
}

impl View for Person {
    type V = PersonView;

    open spec fn view(&self) -> PersonView {
        PersonView {
            person_id: self.person_id@,
            firstname: self.firstname@,
            lastname: self.lastname@,
            events: event_views(self.events@),
            sources: source_views(self.sources@),
        }
    }
}

fn same_text(a: &Option<String>, b: &Option<String>) -> (same: bool)
    ensures
        same == (text_of(*a) == text_of(*b)),
{
    match (a, b) {
        (Some(x), Some(y)) => *x == *y,
        (None, None) => true,
        _ => false,
    }
}

fn same_numbers(a: &Vec<usize>, b: &Vec<usize>) -> (same: bool)
    ensures
        same == (numbers(a@) == numbers(b@)),
{
    if a.len() != b.len() {
        assert(numbers(a@).len() != numbers(b@).len());
        return false;
    }
    let mut i: usize = 0;
    while i < a.len()
        invariant
            i <= a.len(),
            a.len() == b.len(),
            forall|j: int| 0 <= j < i ==> a@[j] == b@[j],
        decreases a.len() - i,
    {
        if a[i] != b[i] {
            assert(numbers(a@)[i as int] != numbers(b@)[i as int]);
            return false;
        }
        i += 1;
    }
    assert(numbers(a@) =~= numbers(b@));
    true
}

fn same_events(a: &Vec<Event>, b: &Vec<Event>) -> (same: bool)
    ensures
        same == (event_views(a@) == event_views(b@)),
{
    if a.len() != b.len() {
        assert(event_views(a@).len() != event_views(b@).len());
        return false;
    }
    let mut i: usize = 0;
    while i < a.len()
        invariant
            i <= a.len(),
            a.len() == b.len(),
            forall|j: int| 0 <= j < i ==> a@[j]@ == b@[j]@,
        decreases a.len() - i,
    {
        if !(a[i] == b[i]) {
            assert(event_views(a@)[i as int] != event_views(b@)[i as int]);
            return false;
        }
        i += 1;
    }
    assert(event_views(a@) =~= event_views(b@));
    true
}

fn same_sources(a: &Vec<Source>, b: &Vec<Source>) -> (same: bool)
    ensures
        same == (source_views(a@) == source_views(b@)),
{
    if a.len() != b.len() {
        assert(source_views(a@).len() != source_views(b@).len());
        return false;
    }
    let mut i: usize = 0;
    while i < a.len()
        invariant
            i <= a.len(),
            a.len() == b.len(),
            forall|j: int| 0 <= j < i ==> a@[j]@ == b@[j]@,
        decreases a.len() - i,
    {
        if !(a[i] == b[i]) {
            assert(source_views(a@)[i as int] != source_views(b@)[i as int]);
            return false;
        }
        i += 1;
    }
    assert(source_views(a@) =~= source_views(b@));
    true
}

impl PartialEqSpecImpl for Source {
    open spec fn obeys_eq_spec() -> bool {
        true
    }

    open spec fn eq_spec(&self, other: &Source) -> bool {
        self@ == other@
    }
}

impl PartialEq for Source {
    fn eq(&self, other: &Source) -> (same: bool) {
        self.num == other.num && self.description == other.description
    }
}

impl PartialEqSpecImpl for Event {
    open spec fn obeys_eq_spec() -> bool {
        true
    }

    open spec fn eq_spec(&self, other: &Event) -> bool {
        self@ == other@
    }
}

impl PartialEq for Event {
    fn eq(&self, other: &Event) -> (same: bool) {
        self.event_type == other.event_type && self.timestamp == other.timestamp && same_text(
            &self.location,
            &other.location,
        ) && same_numbers(&self.sources, &other.sources)
    }
}

impl PartialEqSpecImpl for Person {
    open spec fn obeys_eq_spec() -> bool {
        true
    }

    open spec fn eq_spec(&self, other: &Person) -> bool {
        self@ == other@
    }
}

impl PartialEq for Person {
    fn eq(&self, other: &Person) -> (same: bool) {
        self.person_id == other.person_id && self.firstname == other.firstname && self.lastname
            == other.lastname && same_events(&self.events, &other.events) && same_sources(
            &self.sources,
            &other.sources,
        )
    }
}

} // verus!
