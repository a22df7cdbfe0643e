//! The structural queries that the two kinds of page are read with,
//! compiled once and handed to every extraction rule.

use crate::markup::{compile_selector, compiled_selector};
use scraper::Selector;
use vstd::prelude::*;

verus! {

/// The rows of the result table of a listing page.
pub const ROW_CSS: &'static str = "#bodyContent > div.body > div.list > table > tbody > tr";

/// The link in the first cell of a listing row.
pub const FIRSTNAME_CSS: &'static str = "td:nth-child(1) > a";

/// The link in the second cell of a listing row.
pub const LASTNAME_CSS: &'static str = "td:nth-child(2) > a";

/// The first cell of an event row.
pub const TYPE_CSS: &'static str = "td:nth-child(1)";

/// The second cell of an event row.
pub const TIMESTAMP_CSS: &'static str = "td:nth-child(2)";

/// The third cell of an event row.
pub const LOCATION_CSS: &'static str = "td:nth-child(3)";

/// The citation links in the fourth cell of an event row.
pub const SOURCES_CSS: &'static str = "td:nth-child(4) > a";

/// The rows of the table of sources of a detail page.
pub const GENERAL_SOURCES_CSS: &'static str = "#gedbas-sources > table > tbody > tr";

/// The named anchor in the first cell of a source row.
pub const GENERAL_SOURCE_NUM_CSS: &'static str = "td:nth-child(1) > a";

/// The emphasised text in the second cell of a source row.
pub const GENERAL_SOURCE_DESCRIPTION_CSS: &'static str = "td:nth-child(2) > b";

/// The rows of the table of events of a detail page.
pub const EVENT_CSS: &'static str = "#events > tbody > tr";

/// Whether the engine accepts every query of this library.
pub open spec fn queries_compile() -> bool {
    &&& compiled_selector(ROW_CSS@).is_some()
    &&& compiled_selector(FIRSTNAME_CSS@).is_some()
    &&& compiled_selector(LASTNAME_CSS@).is_some()
    &&& compiled_selector(TYPE_CSS@).is_some()
    &&& compiled_selector(TIMESTAMP_CSS@).is_some()
    &&& compiled_selector(LOCATION_CSS@).is_some()
    &&& compiled_selector(SOURCES_CSS@).is_some()
    &&& compiled_selector(GENERAL_SOURCES_CSS@).is_some()
    &&& compiled_selector(GENERAL_SOURCE_NUM_CSS@).is_some()
    &&& compiled_selector(GENERAL_SOURCE_DESCRIPTION_CSS@).is_some()
    &&& compiled_selector(EVENT_CSS@).is_some()
}

/// The compiled queries. A value of this type exists only where every query
/// compiled, and each field is the compiled form of its text.
pub struct Selectors {
    pub(crate) row: Selector,
    pub(crate) firstname: Selector,
    pub(crate) lastname: Selector,
    pub(crate) event_type: Selector,
    pub(crate) timestamp: Selector,
    pub(crate) location: Selector,
    pub(crate) sources: Selector,
    pub(crate) general_sources: Selector,
    pub(crate) general_source_num: Selector,
    pub(crate) general_source_description: Selector,
    pub(crate) event: Selector,
}

impl Selectors {
    #[verifier::type_invariant]
    pub open(crate) spec fn well_formed(&self) -> bool {
        &&& compiled_selector(ROW_CSS@) == Some(self.row)
        &&& compiled_selector(FIRSTNAME_CSS@) == Some(self.firstname)
        &&& compiled_selector(LASTNAME_CSS@) == Some(self.lastname)
        &&& compiled_selector(TYPE_CSS@) == Some(self.event_type)
        &&& compiled_selector(TIMESTAMP_CSS@) == Some(self.timestamp)
        &&& compiled_selector(LOCATION_CSS@) == Some(self.location)
        &&& compiled_selector(SOURCES_CSS@) == Some(self.sources)
        &&& compiled_selector(GENERAL_SOURCES_CSS@) == Some(self.general_sources)
        &&& compiled_selector(GENERAL_SOURCE_NUM_CSS@) == Some(self.general_source_num)
        &&& compiled_selector(GENERAL_SOURCE_DESCRIPTION_CSS@) == Some(
            self.general_source_description,
        )
        &&& compiled_selector(EVENT_CSS@) == Some(self.event)
    }

    /// Compiles every query. The result is present exactly where the engine
    /// accepts them all.
    pub fn compile() -> (selectors: Option<Selectors>)
        ensures
            selectors.is_some() == queries_compile(),
    {
        let row = compile_selector(ROW_CSS)?;
        let firstname = compile_selector(FIRSTNAME_CSS)?;
        let lastname = compile_selector(LASTNAME_CSS)?;
        let event_type = compile_selector(TYPE_CSS)?;
        let timestamp = compile_selector(TIMESTAMP_CSS)?;
        let location = compile_selector(LOCATION_CSS)?;
        let sources = compile_selector(SOURCES_CSS)?;
        let general_sources = compile_selector(GENERAL_SOURCES_CSS)?;
        let general_source_num = compile_selector(GENERAL_SOURCE_NUM_CSS)?;
        let general_source_description = compile_selector(GENERAL_SOURCE_DESCRIPTION_CSS)?;
        let event = compile_selector(EVENT_CSS)?;
        Some(
            Selectors {
                row,
                firstname,
                lastname,
                event_type,
                timestamp,
                location,
                sources,
                general_sources,
                general_source_num,
                general_source_description,
                event,
            },
        )
    }
}

} // verus!
