//! The search as a sequence of decisions. The library never touches the
//! network: it says which pages to request, and is told what came back.
//!
//! A search asks for the listing page first. A listing that cannot be had or
//! read ends the search. Then every row's detail page is asked for; a page
//! that cannot be had drops its person and nothing else.

use crate::extract::RowError;
use crate::models::{
    person_views, row_views, text_of, Person, PersonRow, PersonRowView, PersonView,
};
use crate::options::{lemma_present_and_missing, lemma_present_push, missing, present};
use crate::pages::{fetched_person, get_person, get_results, listing_of};
use crate::selectors::Selectors;
use crate::text::{append_decimal, decimal};
use vstd::prelude::*;
use vstd::string::*;

verus! {

/// What every mode of the program is started with.
#[derive(Debug)]
pub struct Common {
    pub lastname: String,
    pub firstname: Option<String>,
    pub limit: usize,
}

/// Why a search ended without a result.
#[derive(Debug, Clone, Copy, PartialEq, Eq, Structural)]
pub enum SearchError {
    /// The listing page could not be had.
    Transport,
    /// A row of the listing page is not a person.
    Row(RowError),
}

/// What has been fetched for a search so far.
#[derive(Debug)]
pub enum Fetched {
    /// Nothing yet.
    Nothing,
    /// The outcome of the request for the listing page: its text, or nothing
    /// where the request failed.
    Listing(Option<String>),
    /// Each row of the listing with the outcome of the request for its
    /// detail page.
    Details(Vec<(PersonRow, Option<String>)>),
}

/// What a search does next.
#[derive(Debug)]
pub enum Step {
    /// Request the listing page at this address.
    FetchListing(String),
    /// Request the detail page of each row, at the address beside it, in any
    /// order and independently of each other.
    FetchDetails(Vec<(PersonRow, String)>),
    /// The search is over, with these people.
    Done(Vec<Person>),
    /// The search is over, without a result.
    Failed(SearchError),
}

pub enum FetchedView {
    Nothing,
    Listing(Option<Seq<char>>),
    Details(Seq<(PersonRowView, Option<Seq<char>>)>),
}

pub enum StepView {
    FetchListing(Seq<char>),
    FetchDetails(Seq<(PersonRowView, Seq<char>)>),
    Done(Seq<PersonView>),
    Failed(SearchError),
}

/// The view of a row and the outcome of its request.
pub open spec fn outcome_view(outcome: (PersonRow, Option<String>)) -> (
    PersonRowView,
    Option<Seq<char>>,
) {
    (
        outcome.0@,
        match outcome.1 {
            Some(page) => Some(page@),
            None => None,
        },
    )
}

/// The view of a row and the address of its detail page.
pub open spec fn request_view(request: (PersonRow, String)) -> (PersonRowView, Seq<char>) {
    (request.0@, request.1@)
}

impl View for Fetched {
    type V = FetchedView;

    open spec fn view(&self) -> FetchedView {
        match *self {
            Fetched::Nothing => FetchedView::Nothing,
            Fetched::Listing(page) => FetchedView::Listing(
                match page {
                    Some(text) => Some(text@),
                    None => None,
                },
            ),
            Fetched::Details(outcomes) => FetchedView::Details(
                outcomes@.map_values(|o: (PersonRow, Option<String>)| outcome_view(o)),
            ),
        }
    }
}

impl View for Step {
    type V = StepView;

    open spec fn view(&self) -> StepView {
        match *self {
            Step::FetchListing(url) => StepView::FetchListing(url@),
            Step::FetchDetails(requests) => StepView::FetchDetails(
                requests@.map_values(|r: (PersonRow, String)| request_view(r)),
            ),
            Step::Done(people) => StepView::Done(person_views(people@)),
            Step::Failed(e) => StepView::Failed(e),
        }
    }
}

/// The address of the listing page for a name and a limit.
pub open spec fn listing_url(lastname: Seq<char>, limit: nat, firstname: Seq<char>) -> Seq<char> {
    "https://gedbas.genealogy.net/search/simple?firstname="@ + firstname
        + "&timelimit=none&lastname="@ + lastname + "&placename=&offset=0&max="@ + decimal(limit)
}

/// The address of the detail page of the person with the identifier `id`.
pub open spec fn person_url(id: Seq<char>) -> Seq<char> {
    "https://gedbas.genealogy.net/person/show/"@ + id
}

/// The first name to search with: the empty text where none is given.
pub open spec fn firstname_or_empty(firstname: Option<Seq<char>>) -> Seq<char> {
    match firstname {
        Some(name) => name,
        None => Seq::empty(),
    }
}

/// The request for the detail page of one listing row.
pub open spec fn request_for(row: PersonRowView) -> (PersonRowView, Seq<char>) {
    (row, person_url(row.person_id))
}

/// The person that one row and the outcome of its request make.
pub open spec fn outcome_person(outcome: (PersonRowView, Option<Seq<char>>)) -> Option<
    PersonView,
> {
    fetched_person(outcome.0, outcome.1)
}

/// The people of a search: one for each row whose detail page arrived, in
/// the order of the rows.
pub open spec fn collected(outcomes: Seq<(PersonRowView, Option<Seq<char>>)>) -> Seq<PersonView> {
    present(outcomes.map_values(|o: (PersonRowView, Option<Seq<char>>)| outcome_person(o)))
}

/// The number of rows whose detail page did not arrive.
pub open spec fn failed_requests(outcomes: Seq<(PersonRowView, Option<Seq<char>>)>) -> nat {
    missing(outcomes.map_values(|o: (PersonRowView, Option<Seq<char>>)| outcome_person(o)))
}

/// What a search does next, given what has been fetched.
pub open spec fn next_step(
    lastname: Seq<char>,
    limit: nat,
    firstname: Option<Seq<char>>,
    fetched: FetchedView,
) -> StepView {
    match fetched {
        FetchedView::Nothing => StepView::FetchListing(
            listing_url(lastname, limit, firstname_or_empty(firstname)),
        ),
        FetchedView::Listing(None) => StepView::Failed(SearchError::Transport),
        FetchedView::Listing(Some(page)) => match listing_of(page) {
            Ok(rows) => StepView::FetchDetails(rows.map_values(|r: PersonRowView| request_for(r))),
            Err(e) => StepView::Failed(SearchError::Row(e)),
        },
        FetchedView::Details(outcomes) => StepView::Done(collected(outcomes)),
    }
}

/// Every row either gives a person or counts as a failed request.
pub proof fn lemma_collected_and_failed(outcomes: Seq<(PersonRowView, Option<Seq<char>>)>)
    ensures
        collected(outcomes).len() + failed_requests(outcomes) == outcomes.len(),
{
    lemma_present_and_missing(
        outcomes.map_values(|o: (PersonRowView, Option<Seq<char>>)| outcome_person(o)),
    );
}

/// Writes the address of the listing page.
pub fn listing_request(lastname: &str, limit: usize, firstname: &str) -> (url: String)
    ensures
        url@ == listing_url(lastname@, limit as nat, firstname@),
{
    let mut url = String::from_str("https://gedbas.genealogy.net/search/simple?firstname=");
    url.append(firstname);
    url.append("&timelimit=none&lastname=");
    url.append(lastname);
    url.append("&placename=&offset=0&max=");
    append_decimal(&mut url, limit);
    url
}

/// Writes the address of the detail page of one person.
pub fn person_request(id: &str) -> (url: String)
    ensures
        url@ == person_url(id@),
{
    let mut url = String::from_str("https://gedbas.genealogy.net/person/show/");
    url.append(id);
    url
}

/// Pairs each row of a listing with the address of its detail page.
fn detail_requests(rows: &Vec<PersonRow>) -> (requests: Vec<(PersonRow, String)>)
    ensures
        requests@.map_values(|r: (PersonRow, String)| request_view(r)) == row_views(
            rows@,
        ).map_values(|r: PersonRowView| request_for(r)),
{
    let mut requests: Vec<(PersonRow, String)> = Vec::new();
    let mut i: usize = 0;
    while i < rows.len()
        invariant
            i <= rows.len(),
            requests.len() == i,
            forall|j: int| 0 <= j < i ==> request_view(#[trigger] requests@[j]) == request_for(rows@[j]@),
        decreases rows.len() - i,
    {
        let row = &rows[i];
        let url = person_request(row.person_id.as_str());
        let copy = PersonRow {
            person_id: row.person_id.clone(),
            firstname: row.firstname.clone(),
            lastname: row.lastname.clone(),
        };
        requests.push((copy, url));
        i += 1;
    }
    assert(requests@.map_values(|r: (PersonRow, String)| request_view(r))
        =~= row_views(rows@).map_values(|r: PersonRowView| request_for(r)));
    requests
}

/// Makes the people of the rows whose detail page arrived.
fn collect_people(selectors: &Selectors, outcomes: &Vec<(PersonRow, Option<String>)>) -> (people:
    Vec<Person>)
    ensures
        person_views(people@) == collected(
            outcomes@.map_values(|o: (PersonRow, Option<String>)| outcome_view(o)),
        ),
{
    let ghost views = outcomes@.map_values(|o: (PersonRow, Option<String>)| outcome_view(o));
    let mut people: Vec<Person> = Vec::new();
    let mut i: usize = 0;
    assert(views.take(0) =~= Seq::empty());
    assert(person_views(people@) =~= Seq::empty());
    while i < outcomes.len()
        invariant
            i <= outcomes.len(),
            views == outcomes@.map_values(|o: (PersonRow, Option<String>)| outcome_view(o)),
            person_views(people@) == collected(views.take(i as int)),
        decreases outcomes.len() - i,
    {
        let ghost before = person_views(people@);
        let outcome = &outcomes[i];
        let page = match &outcome.1 {
            Some(text) => Some(text.as_str()),
            None => None,
        };
        proof {
            let seen = views.take(i as int).map_values(
                |o: (PersonRowView, Option<Seq<char>>)| outcome_person(o),
            );
            assert(views.take(i + 1).map_values(
                |o: (PersonRowView, Option<Seq<char>>)| outcome_person(o),
            ) =~= seen.push(outcome_person(views[i as int])));
            lemma_present_push(seen, outcome_person(views[i as int]));
        }
        match get_person(selectors, &outcome.0, page) {
            Some(person) => {
                people.push(person);
                assert(person_views(people@) =~= before.push(person@));
            },
            None => {},
        }
        i += 1;
    }
    assert(views.take(outcomes.len() as int) =~= views);
    people
}

/// Decides the next step of a search for `lastname`, with at most `limit`
/// rows asked for, from what has been fetched so far.
///
/// With nothing fetched, the listing page is asked for. A listing request
/// that failed, or a listing with a row that is not a person, ends the
/// search without a result. A listing that was read asks for the detail page
/// of every row. Once the outcomes of those requests are in, the search is
/// done: it never fails on them, and its people are as many as the rows less
/// the requests that failed.
pub fn perform_search(
    selectors: &Selectors,
    lastname: &str,
    limit: usize,
    firstname: Option<String>,
    fetched: Fetched,
) -> (step: Step)
    ensures
        step@ == next_step(lastname@, limit as nat, text_of(firstname), fetched@),
        fetched@ matches FetchedView::Details(outcomes) ==> step@ matches StepView::Done(people)
            && people.len() + failed_requests(outcomes) == outcomes.len(),
{
    match fetched {
        Fetched::Nothing => {
            let firstname = match firstname {
                Some(name) => name,
                None => String::new(),
            };
            Step::FetchListing(listing_request(lastname, limit, firstname.as_str()))
        },
        Fetched::Listing(None) => Step::Failed(SearchError::Transport),
        Fetched::Listing(Some(page)) => match get_results(selectors, page.as_str()) {
            Ok(rows) => Step::FetchDetails(detail_requests(&rows)),
            Err(e) => Step::Failed(SearchError::Row(e)),
        },
        Fetched::Details(outcomes) => {
            proof {
                lemma_collected_and_failed(
                    outcomes@.map_values(|o: (PersonRow, Option<String>)| outcome_view(o)),
                );
            }
            Step::Done(collect_people(selectors, &outcomes))
        },
    }
}

/// Decides the next step of the search that the program was started with.
pub fn search_with_args(selectors: &Selectors, common: &Common, fetched: Fetched) -> (step: Step)
    ensures
        step@ == next_step(
            common.lastname@,
            common.limit as nat,
            text_of(common.firstname),
            fetched@,
        ),
        fetched@ matches FetchedView::Details(outcomes) ==> step@ matches StepView::Done(people)
            && people.len() + failed_requests(outcomes) == outcomes.len(),
{
    let firstname = match &common.firstname {
        Some(name) => Some(name.clone()),
        None => None,
    };
    perform_search(selectors, common.lastname.as_str(), common.limit, firstname, fetched)
}

} // verus!
