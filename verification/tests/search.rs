use gedbas::extract::RowError;
use gedbas::models::PersonRow;
use gedbas::search::{
    listing_request, perform_search, person_request, search_with_args, Common, Fetched,
    SearchError, Step,
};
use gedbas::selectors::Selectors;

fn selectors() -> Selectors {
    Selectors::compile().unwrap()
}

fn row(id: &str, first: &str, last: &str) -> PersonRow {
    PersonRow {
        person_id: id.to_string(),
        firstname: first.to_string(),
        lastname: last.to_string(),
    }
}

fn detail(kind: &str) -> String {
    format!(
        "<table id='events'><tbody><tr><td>{}</td><td>1900</td></tr></tbody></table>",
        kind
    )
}

const LISTING: &str = "<div id='bodyContent'><div class='body'><div class='list'><table><tbody>\
    <tr><td><a href='/person/show/100'>Anna</a></td><td><a>Meier</a></td></tr>\
    <tr><td><a href='/person/show/200'>Bert</a></td><td><a>Meier</a></td></tr>\
    <tr><td><a href='/person/show/300'>Carl</a></td><td><a>Meyer</a></td></tr>\
    </tbody></table></div></div></div>";

#[test]
fn listing_address_is_written_in_full() {
    assert_eq!(
        listing_request("Meier", 50, "Anna"),
        "https://gedbas.genealogy.net/search/simple?firstname=Anna&timelimit=none&lastname=Meier&placename=&offset=0&max=50"
    );
    assert_eq!(
        listing_request("M", 0, ""),
        "https://gedbas.genealogy.net/search/simple?firstname=&timelimit=none&lastname=M&placename=&offset=0&max=0"
    );
}

#[test]
fn detail_address_ends_in_the_identifier() {
    assert_eq!(person_request("100"), "https://gedbas.genealogy.net/person/show/100");
}

#[test]
fn search_starts_with_the_listing() {
    match perform_search(&selectors(), "Meier", 7, None, Fetched::Nothing) {
        Step::FetchListing(url) => assert_eq!(
            url,
            "https://gedbas.genealogy.net/search/simple?firstname=&timelimit=none&lastname=Meier&placename=&offset=0&max=7"
        ),
        other => panic!("{:?}", other),
    }
    match perform_search(&selectors(), "Meier", 7, Some("Anna".to_string()), Fetched::Nothing) {
        Step::FetchListing(url) => assert_eq!(
            url,
            "https://gedbas.genealogy.net/search/simple?firstname=Anna&timelimit=none&lastname=Meier&placename=&offset=0&max=7"
        ),
        other => panic!("{:?}", other),
    }
}

#[test]
fn failed_listing_request_ends_the_search() {
    match perform_search(&selectors(), "Meier", 7, None, Fetched::Listing(None)) {
        Step::Failed(e) => assert_eq!(e, SearchError::Transport),
        other => panic!("{:?}", other),
    }
}

#[test]
fn malformed_listing_ends_the_search() {
    let page = "<div id='bodyContent'><div class='body'><div class='list'><table><tbody>\
        <tr><td>Anna</td><td><a>Meier</a></td></tr></tbody></table></div></div></div>";
    match perform_search(&selectors(), "Meier", 7, None, Fetched::Listing(Some(page.to_string())))
    {
        Step::Failed(e) => assert_eq!(e, SearchError::Row(RowError::NameLink)),
        other => panic!("{:?}", other),
    }
}

#[test]
fn listing_asks_for_every_detail_page() {
    let step =
        perform_search(&selectors(), "Meier", 7, None, Fetched::Listing(Some(LISTING.to_string())));
    match step {
        Step::FetchDetails(requests) => {
            let read: Vec<(&str, &str, &str, &str)> = requests
                .iter()
                .map(|(r, url)| {
                    (r.person_id.as_str(), r.firstname.as_str(), r.lastname.as_str(), url.as_str())
                })
                .collect();
            assert_eq!(
                read,
                vec![
                    ("100", "Anna", "Meier", "https://gedbas.genealogy.net/person/show/100"),
                    ("200", "Bert", "Meier", "https://gedbas.genealogy.net/person/show/200"),
                    ("300", "Carl", "Meyer", "https://gedbas.genealogy.net/person/show/300"),
                ]
            );
        }
        other => panic!("{:?}", other),
    }
}

#[test]
fn failed_detail_request_drops_only_its_person() {
    let outcomes = vec![
        (row("100", "Anna", "Meier"), Some(detail("Birth"))),
        (row("200", "Bert", "Meier"), None),
        (row("300", "Carl", "Meyer"), Some(detail("Death"))),
    ];
    match perform_search(&selectors(), "Meier", 50, None, Fetched::Details(outcomes)) {
        Step::Done(people) => {
            assert_eq!(people.len(), 2);
            assert_eq!(people[0].person_id, "100");
            assert_eq!(people[0].firstname, "Anna");
            assert_eq!(people[0].events.len(), 1);
            assert_eq!(people[0].events[0].event_type, "Birth");
            assert_eq!(people[1].person_id, "300");
            assert_eq!(people[1].lastname, "Meyer");
            assert_eq!(people[1].events[0].event_type, "Death");
        }
        other => panic!("{:?}", other),
    }
}

#[test]
fn any_set_of_failed_requests_only_shortens_the_result() {
    for mask in 0u32..16 {
        let mut outcomes = Vec::new();
        let mut failed = 0;
        for i in 0..4 {
            let page = if mask & (1 << i) != 0 {
                failed += 1;
                None
            } else {
                Some(detail("Birth"))
            };
            outcomes.push((row(&i.to_string(), "Anna", "Meier"), page));
        }
        match perform_search(&selectors(), "Meier", 50, None, Fetched::Details(outcomes)) {
            Step::Done(people) => {
                assert_eq!(people.len(), 4 - failed);
                let mut expected = Vec::new();
                for i in 0..4 {
                    if mask & (1 << i) == 0 {
                        expected.push(i.to_string());
                    }
                }
                let got: Vec<String> = people.iter().map(|p| p.person_id.clone()).collect();
                assert_eq!(got, expected);
            }
            other => panic!("{:?}", other),
        }
    }
}

#[test]
fn search_without_rows_is_done_with_nobody() {
    match perform_search(&selectors(), "Meier", 50, None, Fetched::Details(Vec::new())) {
        Step::Done(people) => assert!(people.is_empty()),
        other => panic!("{:?}", other),
    }
}

#[test]
fn repeated_rows_are_kept() {
    let outcomes = vec![
        (row("100", "Anna", "Meier"), Some(detail("Birth"))),
        (row("100", "Anna", "Meier"), Some(detail("Birth"))),
    ];
    match perform_search(&selectors(), "Meier", 50, None, Fetched::Details(outcomes)) {
        Step::Done(people) => {
            assert_eq!(people.len(), 2);
            assert_eq!(people[0], people[1]);
        }
        other => panic!("{:?}", other),
    }
}

#[test]
fn search_with_args_uses_the_arguments() {
    let common = Common { lastname: "Schmidt".to_string(), firstname: Some("Eva".to_string()), limit: 50 };
    match search_with_args(&selectors(), &common, Fetched::Nothing) {
        Step::FetchListing(url) => assert_eq!(
            url,
            "https://gedbas.genealogy.net/search/simple?firstname=Eva&timelimit=none&lastname=Schmidt&placename=&offset=0&max=50"
        ),
        other => panic!("{:?}", other),
    }
    let bare = Common { lastname: "Schmidt".to_string(), firstname: None, limit: 3 };
    match search_with_args(&selectors(), &bare, Fetched::Nothing) {
        Step::FetchListing(url) => assert_eq!(
            url,
            "https://gedbas.genealogy.net/search/simple?firstname=&timelimit=none&lastname=Schmidt&placename=&offset=0&max=3"
        ),
        other => panic!("{:?}", other),
    }
    match search_with_args(&selectors(), &bare, Fetched::Listing(None)) {
        Step::Failed(e) => assert_eq!(e, SearchError::Transport),
        other => panic!("{:?}", other),
    }
}

#[test]
fn whole_search_with_one_failed_detail_request() {
    let selectors = selectors();
    let common = Common { lastname: "Meier".to_string(), firstname: None, limit: 50 };
    let requests = match search_with_args(
        &selectors,
        &common,
        Fetched::Listing(Some(LISTING.to_string())),
    ) {
        Step::FetchDetails(requests) => requests,
        other => panic!("{:?}", other),
    };
    assert_eq!(requests.len(), 3);
    let outcomes: Vec<(PersonRow, Option<String>)> = requests
        .into_iter()
        .map(|(r, url)| {
            let page = if url.ends_with("/200") { None } else { Some(detail(&r.firstname)) };
            (r, page)
        })
        .collect();
    match search_with_args(&selectors, &common, Fetched::Details(outcomes)) {
        Step::Done(people) => {
            assert_eq!(people.len(), 2);
            assert_eq!(people[0].person_id, "100");
            assert_eq!(people[0].events[0].event_type, "Anna");
            assert_eq!(people[1].person_id, "300");
            assert_eq!(people[1].events[0].event_type, "Carl");
        }
        other => panic!("{:?}", other),
    }
}
