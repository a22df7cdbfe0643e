//! The extraction rules: how a row of markup becomes a record, which rows
//! are dropped, and which are fatal.

use crate::markup::{
    attribute, attribute_of, compiled_selector, element_matches, inner_html, inner_html_of,
    select_in, text_nodes, text_nodes_of,
};
use crate::models::{
    numbers, text_of, Event, EventView, PersonRow, PersonRowView, Source, SourceView,
};
use crate::options::{first_of, lemma_present_push, present, view_of};
use crate::selectors::{
    Selectors, FIRSTNAME_CSS, GENERAL_SOURCE_DESCRIPTION_CSS, GENERAL_SOURCE_NUM_CSS,
    LASTNAME_CSS, LOCATION_CSS, SOURCES_CSS, TIMESTAMP_CSS, TYPE_CSS,
};
use crate::text::{
    after_prefix, join, joined, number_of, parse_number, skip_prefix, slice_text, trim, trimmed,
};
use scraper::{ElementRef, Selector};
use vstd::prelude::*;
use vstd::string::*;

verus! {

/// The number of characters before the identifier in a link to a detail page.
pub const PERSON_LINK_PREFIX: usize = 13;

/// The number of characters before the number in a citation link.
pub const CITATION_LINK_PREFIX: usize = 8;

/// The number of characters before the number in the name of a source anchor.
pub const SOURCE_ANCHOR_PREFIX: usize = 7;

/// The descendants of `scope` that the query `css` selects, in document
/// order; none where the query does not compile.
pub open spec fn matches_of(scope: ElementRef, css: Seq<char>) -> Seq<ElementRef> {
    match compiled_selector(css) {
        Some(selector) => element_matches(scope, selector),
        None => Seq::empty(),
    }
}

/// The first descendant of `scope` that the query `css` selects.
pub open spec fn first_match_of(scope: ElementRef, css: Seq<char>) -> Option<ElementRef> {
    first_of(matches_of(scope, css))
}

/// The first text node below an element, if there is an element and it
/// holds text.
pub open spec fn first_text_of(element: Option<ElementRef>) -> Option<Seq<char>> {
    match element {
        Some(e) => first_of(text_nodes_of(e)),
        None => None,
    }
}

/// The inner markup of an element, if there is one.
pub open spec fn markup_of(element: Option<ElementRef>) -> Option<Seq<char>> {
    match element {
        Some(e) => Some(inner_html_of(e)),
        None => None,
    }
}

/// The inner text of an element: its text nodes, written one after the other
/// in document order, without the markup between them.
pub open spec fn inner_text_of(element: ElementRef) -> Seq<char> {
    joined(text_nodes_of(element))
}

/// The inner text of an element, if there is one.
pub open spec fn text_content_of(element: Option<ElementRef>) -> Option<Seq<char>> {
    match element {
        Some(e) => Some(inner_text_of(e)),
        None => None,
    }
}

/// The number that follows a prefix of `prefix` characters in `text`.
pub open spec fn number_after(text: Option<Seq<char>>, prefix: nat) -> Option<nat> {
    match text {
        Some(t) => match after_prefix(t, prefix) {
            Some(rest) => number_of(rest),
            None => None,
        },
        None => None,
    }
}

/// The number of an optional machine word.
pub open spec fn number_view(number: Option<usize>) -> Option<nat> {
    match number {
        Some(n) => Some(n as nat),
        None => None,
    }
}

/// The citation number that a link carries in its target.
pub open spec fn citation_of(link: ElementRef) -> Option<nat> {
    number_after(attribute_of(link, "href"@), CITATION_LINK_PREFIX as nat)
}

/// The citation numbers of a run of links: those that carry one, in order.
pub open spec fn citations_of(links: Seq<ElementRef>) -> Seq<nat> {
    present(links.map_values(|link: ElementRef| citation_of(link)))
}

/// The event that four extracted fields make: the kind and the timestamp
/// are required, and all text is trimmed.
pub open spec fn event_from(
    kind: Option<Seq<char>>,
    timestamp: Option<Seq<char>>,
    location: Option<Seq<char>>,
    citations: Seq<nat>,
) -> Option<EventView> {
    match (kind, timestamp) {
        (Some(k), Some(t)) => Some(
            EventView {
                event_type: trimmed(k),
                timestamp: trimmed(t),
                location: match location {
                    Some(l) => Some(trimmed(l)),
                    None => None,
                },
                sources: citations,
            },
        ),
        _ => None,
    }
}

/// The event that a row of the events table holds, if it holds one.
pub open spec fn event_of(row: ElementRef) -> Option<EventView> {
    event_from(
        markup_of(first_match_of(row, TYPE_CSS@)),
        first_text_of(first_match_of(row, TIMESTAMP_CSS@)),
        first_text_of(first_match_of(row, LOCATION_CSS@)),
        citations_of(matches_of(row, SOURCES_CSS@)),
    )
}

/// The first descendant of `scope` that `selector` matches.
pub(crate) fn first_match<'a>(scope: ElementRef<'a>, selector: &Selector) -> (found: Option<
    ElementRef<'a>,
>)
    ensures
        found == first_of(element_matches(scope, *selector)),
{
    let found = select_in(scope, selector);
    if found.len() > 0 {
        Some(found[0])
    } else {
        None
    }
}

/// The first text node below `element`, if there is an element and it holds
/// text.
pub(crate) fn first_text<'a>(element: Option<ElementRef<'a>>) -> (text: Option<&'a str>)
    ensures
        slice_text(text) == first_text_of(element),
{
    match element {
        Some(e) => {
            let texts = text_nodes(e);
            if texts.len() > 0 {
                Some(texts[0])
            } else {
                None
            }
        },
        None => None,
    }
}

/// The inner text of `element`: every text node below it, in document
/// order, with nothing between them.
pub(crate) fn inner_text(element: ElementRef) -> (text: String)
    ensures
        text@ == inner_text_of(element),
{
    let pieces = text_nodes(element);
    join(&pieces)
}

/// Reads the number that follows a prefix of `prefix` characters. Text that
/// is missing, too short, or does not end in a number gives nothing.
pub fn number_after_prefix(text: Option<&str>, prefix: usize) -> (number: Option<usize>)
    ensures
        number_view(number) == number_after(slice_text(text), prefix as nat),
{
    match text {
        Some(t) => match skip_prefix(t, prefix) {
            Some(rest) => parse_number(rest),
            None => None,
        },
        None => None,
    }
}

/// Reads the citation number out of one link of an event row.
pub fn parse_source(source_element: ElementRef) -> (number: Option<usize>)
    ensures
        number_view(number) == citation_of(source_element),
{
    number_after_prefix(attribute(source_element, "href"), CITATION_LINK_PREFIX)
}

/// Builds an event from its extracted fields. Without a kind or a timestamp
/// there is no event.
pub fn event_from_fields(
    kind: Option<String>,
    timestamp: Option<&str>,
    location: Option<&str>,
    citations: Vec<usize>,
) -> (event: Option<Event>)
    ensures
        view_of(event) == event_from(
            text_of(kind),
            slice_text(timestamp),
            slice_text(location),
            numbers(citations@),
        ),
{
    let kind = kind?;
    let timestamp = timestamp?;
    let location = match location {
        Some(l) => Some(String::from_str(trim(l))),
        None => None,
    };
    Some(
        Event {
            event_type: String::from_str(trim(kind.as_str())),
            timestamp: String::from_str(trim(timestamp)),
            location,
            sources: citations,
        },
    )
}

/// Reads one row of the events table. A row without a first cell, or
/// without text in its second cell, gives no event; a citation link without
/// a number is left out of the event.
pub fn parse_event(selectors: &Selectors, event_element: ElementRef) -> (event: Option<Event>)
    ensures
        view_of(event) == event_of(event_element),
        first_match_of(event_element, TYPE_CSS@).is_none() ==> event.is_none(),
        first_match_of(event_element, TIMESTAMP_CSS@).is_none() ==> event.is_none(),
{
    proof {
        use_type_invariant(selectors);
    }
    let kind = match first_match(event_element, &selectors.event_type) {
        Some(cell) => Some(inner_html(cell)),
        None => None,
    };
    let timestamp = first_text(first_match(event_element, &selectors.timestamp));
    let location = first_text(first_match(event_element, &selectors.location));
    let links = select_in(event_element, &selectors.sources);
    let mut citations: Vec<usize> = Vec::new();
    let mut i: usize = 0;
    assert(links@.take(0) =~= Seq::empty());
    while i < links.len()
        invariant
            i <= links.len(),
            numbers(citations@) =~= citations_of(links@.take(i as int)),
        decreases links.len() - i,
    {
        let number = parse_source(links[i]);
        proof {
            let seen = links@.take(i as int).map_values(|link: ElementRef| citation_of(link));
            assert(links@.take(i + 1).map_values(|link: ElementRef| citation_of(link)) =~= seen.push(
                citation_of(links@[i as int]),
            ));
            lemma_present_push(seen, citation_of(links@[i as int]));
        }
        match number {
            Some(n) => {
                citations.push(n);
            },
            None => {},
        }
        i += 1;
    }
    assert(links@.take(links.len() as int) =~= links@);
    event_from_fields(kind, timestamp, location, citations)
}

/// The source that two extracted fields make: the number that follows the
/// prefix of the anchor's name, and the trimmed description. Both are
/// required.
pub open spec fn source_from(anchor: Option<Seq<char>>, description: Option<Seq<char>>) -> Option<
    SourceView,
> {
    match (number_after(anchor, SOURCE_ANCHOR_PREFIX as nat), description) {
        (Some(num), Some(text)) => Some(SourceView { num, description: trimmed(text) }),
        _ => None,
    }
}

/// The name of the anchor in the first cell of a source row.
pub open spec fn anchor_name_of(row: ElementRef) -> Option<Seq<char>> {
    match first_match_of(row, GENERAL_SOURCE_NUM_CSS@) {
        Some(anchor) => attribute_of(anchor, "name"@),
        None => None,
    }
}

/// The source that a row of the sources table holds, if it holds one.
pub open spec fn general_source_of(row: ElementRef) -> Option<SourceView> {
    source_from(
        anchor_name_of(row),
        first_text_of(first_match_of(row, GENERAL_SOURCE_DESCRIPTION_CSS@)),
    )
}

/// Builds a source from its extracted fields. Without a number after the
/// prefix of the anchor's name, or without a description, there is no source.
pub fn source_from_fields(anchor: Option<&str>, description: Option<&str>) -> (source: Option<
    Source,
>)
    ensures
        view_of(source) == source_from(slice_text(anchor), slice_text(description)),
{
    let num = number_after_prefix(anchor, SOURCE_ANCHOR_PREFIX)?;
    let description = description?;
    Some(Source { num, description: String::from_str(trim(description)) })
}

/// Reads one row of the sources table. A row without a numbered anchor, or
/// without emphasised text in its second cell, gives no source.
pub fn parse_general_source(selectors: &Selectors, source_element: ElementRef) -> (source: Option<
    Source,
>)
    ensures
        view_of(source) == general_source_of(source_element),
        first_match_of(source_element, GENERAL_SOURCE_NUM_CSS@).is_none() ==> source.is_none(),
        first_match_of(source_element, GENERAL_SOURCE_DESCRIPTION_CSS@).is_none()
            ==> source.is_none(),
{
    proof {
        use_type_invariant(selectors);
    }
    let anchor = match first_match(source_element, &selectors.general_source_num) {
        Some(a) => attribute(a, "name"),
        None => None,
    };
    let description = first_text(
        first_match(source_element, &selectors.general_source_description),
    );
    source_from_fields(anchor, description)
}

/// Why a row of a listing page is not a person.
#[derive(Debug, Clone, Copy, PartialEq, Eq, Structural)]
pub enum RowError {
    /// The first cell holds no link.
    NameLink,
    /// The link in the first cell has no target.
    LinkTarget,
    /// The target of the link holds nothing after its prefix.
    Identifier,
    /// The second cell holds no link.
    SurnameLink,
}

/// What the link in the first cell of a listing row holds: its inner text
/// and, where it has one, its target.
pub open spec fn name_link_of(row: ElementRef) -> Option<(Seq<char>, Option<Seq<char>>)> {
    match first_match_of(row, FIRSTNAME_CSS@) {
        Some(link) => Some((inner_text_of(link), attribute_of(link, "href"@))),
        None => None,
    }
}

/// The inner text of the link in the second cell of a listing row.
pub open spec fn surname_of(row: ElementRef) -> Option<Seq<char>> {
    text_content_of(first_match_of(row, LASTNAME_CSS@))
}

/// The identifier that the target of a link to a detail page carries: what
/// follows the prefix, which may not be empty.
pub open spec fn person_id_of(target: Seq<char>) -> Option<Seq<char>> {
    if target.len() > PERSON_LINK_PREFIX {
        Some(target.skip(PERSON_LINK_PREFIX as int))
    } else {
        None
    }
}

/// The listing row that the extracted fields make, or the first thing that
/// is wrong with them. The names are taken as they stand.
pub open spec fn row_from(
    name_link: Option<(Seq<char>, Option<Seq<char>>)>,
    surname: Option<Seq<char>>,
) -> Result<PersonRowView, RowError> {
    match name_link {
        None => Err(RowError::NameLink),
        Some((_, None)) => Err(RowError::LinkTarget),
        Some((name, Some(target))) => match person_id_of(target) {
            None => Err(RowError::Identifier),
            Some(id) => match surname {
                None => Err(RowError::SurnameLink),
                Some(s) => Ok(PersonRowView { person_id: id, firstname: name, lastname: s }),
            },
        },
    }
}

/// The listing row that a row of the result table holds.
pub open spec fn row_of(row: ElementRef) -> Result<PersonRowView, RowError> {
    row_from(name_link_of(row), surname_of(row))
}

/// The view of a listing row or of the reason why there is none.
pub open spec fn row_view(row: Result<PersonRow, RowError>) -> Result<PersonRowView, RowError> {
    match row {
        Ok(r) => Ok(r@),
        Err(e) => Err(e),
    }
}

/// The inner text and the target of a link, as characters.
pub open spec fn link_text(link: Option<(String, Option<&str>)>) -> Option<
    (Seq<char>, Option<Seq<char>>),
> {
    match link {
        Some((name, target)) => Some((name@, slice_text(target))),
        None => None,
    }
}

/// Cuts the identifier of a person out of the target of a link.
pub fn person_id(target: &str) -> (id: Option<String>)
    ensures
        text_of(id) == person_id_of(target@),
{
    let len: usize = target.unicode_len();
    if len > PERSON_LINK_PREFIX {
        let id = target.substring_char(PERSON_LINK_PREFIX, len);
        assert(target@.subrange(PERSON_LINK_PREFIX as int, len as int) =~= target@.skip(
            PERSON_LINK_PREFIX as int,
        ));
        Some(String::from_str(id))
    } else {
        None
    }
}

/// Builds a listing row from its extracted fields, or says what is missing.
pub fn row_from_fields(name_link: Option<(String, Option<&str>)>, surname: Option<String>) -> (row:
    Result<PersonRow, RowError>)
    ensures
        row_view(row) == row_from(link_text(name_link), text_of(surname)),
{
    let (name, target) = match name_link {
        Some(link) => link,
        None => {
            return Err(RowError::NameLink);
        },
    };
    let target = match target {
        Some(t) => t,
        None => {
            return Err(RowError::LinkTarget);
        },
    };
    let id = match person_id(target) {
        Some(id) => id,
        None => {
            return Err(RowError::Identifier);
        },
    };
    match surname {
        Some(s) => Ok(PersonRow { person_id: id, firstname: name, lastname: s }),
        None => Err(RowError::SurnameLink),
    }
}

/// Reads one row of the result table of a listing page. The names are the
/// inner text of the two links as it stands: not trimmed, and without the
/// markup that the links may hold.
pub fn parse_row(selectors: &Selectors, row_element: ElementRef) -> (row: Result<
    PersonRow,
    RowError,
>)
    ensures
        row_view(row) == row_of(row_element),
        (name_link_of(row_element), surname_of(row_element)) matches (
            Some((name, Some(target))),
            Some(surname),
        ) ==> (target.len()
            > PERSON_LINK_PREFIX ==> (row matches Ok(r) && r.person_id@ == target.skip(
            PERSON_LINK_PREFIX as int,
        ) && r.firstname@ == name && r.lastname@ == surname)),
        row matches Ok(r) ==> r.person_id@.len() > 0,
{
    proof {
        use_type_invariant(selectors);
    }
    let name_link = match first_match(row_element, &selectors.firstname) {
        Some(link) => Some((inner_text(link), attribute(link, "href"))),
        None => None,
    };
    let surname = match first_match(row_element, &selectors.lastname) {
        Some(link) => Some(inner_text(link)),
        None => None,
    };
    row_from_fields(name_link, surname)
}

} // verus!
