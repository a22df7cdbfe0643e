//! Whole pages: the rows of a listing page, and the events and sources of a
//! detail page.

use crate::extract::{
    event_of, general_source_of, parse_event, parse_general_source, parse_row, row_of, RowError,
};
use crate::markup::{
    compiled_selector, document_matches, parse_document, parsed_document, select_in_document,
};
use crate::models::{
    event_views, row_views, source_views, Event, EventView, Person, PersonRow, PersonRowView,
    PersonView, Source, SourceView,
};
use crate::options::{lemma_present_push, present, view_of};
use crate::selectors::{Selectors, EVENT_CSS, GENERAL_SOURCES_CSS, ROW_CSS};
use crate::text::slice_text;
use scraper::ElementRef;
use vstd::prelude::*;

verus! {

/// The elements of the page `page` that the query `css` selects, in the
/// order in which the engine yields them; none where the query does not
/// compile.
pub open spec fn rows_of(page: Seq<char>, css: Seq<char>) -> Seq<ElementRef<'static>> {
    match compiled_selector(css) {
        Some(selector) => document_matches(parsed_document(page), selector),
        None => Seq::empty(),
    }
}

/// The listing rows that a run of table rows holds, or what is wrong with
/// the first row that is not a person.
pub open spec fn listing_from(rows: Seq<ElementRef>) -> Result<Seq<PersonRowView>, RowError>
    decreases rows.len(),
{
    if rows.len() == 0 {
        Ok(Seq::empty())
    } else {
        match listing_from(rows.drop_last()) {
            Err(e) => Err(e),
            Ok(before) => match row_of(rows.last()) {
                Ok(row) => Ok(before.push(row)),
                Err(e) => Err(e),
            },
        }
    }
}

/// The listing rows of a listing page.
pub open spec fn listing_of(page: Seq<char>) -> Result<Seq<PersonRowView>, RowError> {
    listing_from(rows_of(page, ROW_CSS@))
}

/// The events of a detail page: one for each row of the events table that
/// holds one, in the order of the rows.
pub open spec fn events_of(page: Seq<char>) -> Seq<EventView> {
    present(rows_of(page, EVENT_CSS@).map_values(|row: ElementRef| event_of(row)))
}

/// The sources of a detail page: one for each row of the sources table that
/// holds one, in the order of the rows.
pub open spec fn sources_of(page: Seq<char>) -> Seq<SourceView> {
    present(rows_of(page, GENERAL_SOURCES_CSS@).map_values(|row: ElementRef| general_source_of(row)))
}

/// The person that a listing row and the detail page fetched for it make.
pub open spec fn person_of(row: PersonRowView, page: Seq<char>) -> PersonView {
    PersonView {
        person_id: row.person_id,
        firstname: row.firstname,
        lastname: row.lastname,
        events: events_of(page),
        sources: sources_of(page),
    }
}

/// The person that a listing row and the outcome of its detail request make:
/// none where the request failed.
pub open spec fn fetched_person(row: PersonRowView, page: Option<Seq<char>>) -> Option<PersonView> {
    match page {
        Some(text) => Some(person_of(row, text)),
        None => None,
    }
}

/// The views of the rows of a listing or the reason why there is none.
pub open spec fn listing_view(rows: Result<Vec<PersonRow>, RowError>) -> Result<
    Seq<PersonRowView>,
    RowError,
> {
    match rows {
        Ok(r) => Ok(row_views(r@)),
        Err(e) => Err(e),
    }
}

/// Reads the result table of a listing page. One row that is not a person
/// fails the whole listing, with what is wrong with the first such row.
pub fn get_results(selectors: &Selectors, page: &str) -> (rows: Result<Vec<PersonRow>, RowError>)
    ensures
        listing_view(rows) == listing_of(page@),
        rows matches Ok(r) ==> forall|i: int|
            0 <= i < r.len() ==> (#[trigger] r@[i]).person_id@.len() > 0,
{
    proof {
        use_type_invariant(selectors);
    }
    let document = parse_document(page);
    let elements = select_in_document(&document, &selectors.row);
    let mut rows: Vec<PersonRow> = Vec::new();
    let mut i: usize = 0;
    assert(elements@.take(0) =~= Seq::empty());
    assert(row_views(rows@) =~= Seq::empty());
    while i < elements.len()
        invariant
            i <= elements.len(),
            listing_from(elements@) == listing_of(page@),
            forall|j: int| 0 <= j < rows.len() ==> (#[trigger] rows@[j]).person_id@.len() > 0,
            listing_from(elements@.take(i as int)) == Ok::<Seq<PersonRowView>, RowError>(
                row_views(rows@),
            ),
        decreases elements.len() - i,
    {
        let ghost before = row_views(rows@);
        assert(elements@.take(i + 1).drop_last() =~= elements@.take(i as int));
        assert(elements@.take(i + 1).last() == elements@[i as int]);
        match parse_row(selectors, elements[i]) {
            Ok(row) => {
                rows.push(row);
                assert(row_views(rows@) =~= before.push(row@));
            },
            Err(e) => {
                proof {
                    assert(listing_from(elements@.take(i + 1)) == Err::<
                        Seq<PersonRowView>,
                        RowError,
                    >(e));
                    lemma_listing_fails(elements@, i + 1);
                }
                return Err(e);
            },
        }
        i += 1;
    }
    assert(elements@.take(elements.len() as int) =~= elements@);
    Ok(rows)
}

/// A failure among the first rows is the failure of the whole run.
pub proof fn lemma_listing_fails(rows: Seq<ElementRef>, k: int)
    requires
        0 <= k <= rows.len(),
        listing_from(rows.take(k)).is_err(),
    ensures
        listing_from(rows) == listing_from(rows.take(k)),
    decreases rows.len(),
{
    if k < rows.len() {
        assert(rows.drop_last().take(k) =~= rows.take(k));
        lemma_listing_fails(rows.drop_last(), k);
    } else {
        assert(rows.take(k) =~= rows);
    }
}

/// Reads the events table of a detail page, leaving out the rows that hold
/// no event.
fn page_events(selectors: &Selectors, elements: &Vec<ElementRef>) -> (events: Vec<Event>)
    ensures
        event_views(events@) == present(elements@.map_values(|row: ElementRef| event_of(row))),
{
    let mut events: Vec<Event> = Vec::new();
    let mut i: usize = 0;
    assert(elements@.take(0) =~= Seq::empty());
    while i < elements.len()
        invariant
            i <= elements.len(),
            event_views(events@) =~= present(
                elements@.take(i as int).map_values(|row: ElementRef| event_of(row)),
            ),
        decreases elements.len() - i,
    {
        let ghost before = event_views(events@);
        proof {
            let seen = elements@.take(i as int).map_values(|row: ElementRef| event_of(row));
            assert(elements@.take(i + 1).map_values(|row: ElementRef| event_of(row)) =~= seen.push(
                event_of(elements@[i as int]),
            ));
            lemma_present_push(seen, event_of(elements@[i as int]));
        }
        match parse_event(selectors, elements[i]) {
            Some(event) => {
                events.push(event);
                assert(event_views(events@) =~= before.push(event@));
            },
            None => {},
        }
        i += 1;
    }
    assert(elements@.take(elements.len() as int) =~= elements@);
    events
}

/// Reads the sources table of a detail page, leaving out the rows that hold
/// no source.
fn page_sources(selectors: &Selectors, elements: &Vec<ElementRef>) -> (sources: Vec<Source>)
    ensures
        source_views(sources@) == present(
            elements@.map_values(|row: ElementRef| general_source_of(row)),
        ),
{
    let mut sources: Vec<Source> = Vec::new();
    let mut i: usize = 0;
    assert(elements@.take(0) =~= Seq::empty());
    while i < elements.len()
        invariant
            i <= elements.len(),
            source_views(sources@) =~= present(
                elements@.take(i as int).map_values(|row: ElementRef| general_source_of(row)),
            ),
        decreases elements.len() - i,
    {
        let ghost before = source_views(sources@);
        proof {
            let seen = elements@.take(i as int).map_values(
                |row: ElementRef| general_source_of(row),
            );
            assert(elements@.take(i + 1).map_values(|row: ElementRef| general_source_of(row))
                =~= seen.push(general_source_of(elements@[i as int])));
            lemma_present_push(seen, general_source_of(elements@[i as int]));
        }
        match parse_general_source(selectors, elements[i]) {
            Some(source) => {
                sources.push(source);
                assert(source_views(sources@) =~= before.push(source@));
            },
            None => {},
        }
        i += 1;
    }
    assert(elements@.take(elements.len() as int) =~= elements@);
    sources
}

/// Makes a person of a listing row and the outcome of the request for its
/// detail page. A request that failed gives no person; a page that arrived
/// always gives one, with the events and sources that its tables hold.
pub fn get_person(selectors: &Selectors, person_row: &PersonRow, page: Option<&str>) -> (person:
    Option<Person>)
    ensures
        view_of(person) == fetched_person(person_row@, slice_text(page)),
{
    proof {
        use_type_invariant(selectors);
    }
    let page = page?;
    let document = parse_document(page);
    let events = page_events(selectors, &select_in_document(&document, &selectors.event));
    let sources = page_sources(
        selectors,
        &select_in_document(&document, &selectors.general_sources),
    );
    Some(
        Person {
            person_id: person_row.person_id.clone(),
            firstname: person_row.firstname.clone(),
            lastname: person_row.lastname.clone(),
            events,
            sources,
        },
    )
}

} // verus!
