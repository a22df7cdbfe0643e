use gedbas::diff::diff;
use gedbas::models::{Event, Person, Source};

fn person(id: &str, events: Vec<Event>) -> Person {
    Person {
        person_id: id.to_string(),
        firstname: "Anna".to_string(),
        lastname: "Meier".to_string(),
        events,
        sources: vec![Source { num: 1, description: "Church book".to_string() }],
    }
}

fn event(kind: &str, timestamp: &str) -> Event {
    Event {
        event_type: kind.to_string(),
        timestamp: timestamp.to_string(),
        location: None,
        sources: vec![1],
    }
}

#[test]
fn same_snapshot_does_not_differ() {
    let s = vec![person("1", vec![event("Birth", "1900")]), person("2", vec![])];
    assert!(diff(&s, &s).is_empty());
    let again = vec![person("1", vec![event("Birth", "1900")]), person("2", vec![])];
    assert!(diff(&s, &again).is_empty());
    let empty: Vec<Person> = Vec::new();
    assert!(diff(&empty, &empty).is_empty());
}

#[test]
fn reordered_snapshot_does_not_differ() {
    let a = vec![person("1", vec![]), person("2", vec![])];
    let b = vec![person("2", vec![]), person("1", vec![]), person("2", vec![])];
    assert!(diff(&a, &b).is_empty());
}

#[test]
fn diff_holds_what_appeared_and_what_disappeared() {
    let before = vec![person("1", vec![]), person("2", vec![]), person("3", vec![])];
    let after = vec![person("4", vec![]), person("2", vec![]), person("5", vec![])];
    let changed = diff(&before, &after);
    let ids: Vec<&str> = changed.iter().map(|p| p.person_id.as_str()).collect();
    assert_eq!(ids, vec!["1", "3", "4", "5"]);
}

#[test]
fn diff_is_symmetric_as_a_set() {
    let a = vec![person("1", vec![]), person("2", vec![]), person("3", vec![])];
    let b = vec![person("3", vec![]), person("4", vec![])];
    let forth = diff(&a, &b);
    let back = diff(&b, &a);
    assert_eq!(forth.len(), 3);
    assert_eq!(back.len(), 3);
    for p in forth.iter() {
        assert!(back.iter().any(|q| q == p));
    }
    for p in back.iter() {
        assert!(forth.iter().any(|q| q == p));
    }
}

#[test]
fn diff_names_no_record_twice() {
    let before = vec![person("1", vec![]), person("1", vec![]), person("2", vec![])];
    let after = vec![person("2", vec![])];
    let changed = diff(&before, &after);
    assert_eq!(changed.len(), 1);
    assert_eq!(changed[0].person_id, "1");
}

#[test]
fn person_with_a_new_event_shows_twice() {
    let before = vec![person("1", vec![event("Birth", "1900")]), person("2", vec![])];
    let after = vec![
        person("1", vec![event("Birth", "1900"), event("Death", "1950")]),
        person("2", vec![]),
    ];
    let changed = diff(&before, &after);
    assert_eq!(changed.len(), 2);
    assert_eq!(*changed[0], before[0]);
    assert_eq!(*changed[1], after[0]);
}

#[test]
fn person_that_appeared_shows_once() {
    let before = vec![person("2", vec![])];
    let after = vec![person("1", vec![event("Birth", "1900")]), person("2", vec![])];
    let changed = diff(&before, &after);
    assert_eq!(changed.len(), 1);
    assert_eq!(*changed[0], after[0]);
}

#[test]
fn one_changed_field_makes_a_different_record() {
    let base = person("1", vec![event("Birth", "1900")]);
    let mut other_time = person("1", vec![event("Birth", "1900")]);
    other_time.events[0].timestamp = "1901".to_string();
    let mut other_place = person("1", vec![event("Birth", "1900")]);
    other_place.events[0].location = Some("Berlin".to_string());
    let mut other_citation = person("1", vec![event("Birth", "1900")]);
    other_citation.events[0].sources = vec![2];
    let mut other_source = person("1", vec![event("Birth", "1900")]);
    other_source.sources[0].description = "Bible".to_string();
    let mut other_name = person("1", vec![event("Birth", "1900")]);
    other_name.firstname = "Anne".to_string();
    for other in [other_time, other_place, other_citation, other_source, other_name] {
        assert_ne!(base, other);
        let left = vec![person("1", vec![event("Birth", "1900")])];
        let right = vec![other];
        assert_eq!(diff(&left, &right).len(), 2);
    }
    assert_eq!(base, person("1", vec![event("Birth", "1900")]));
}
