//! Extraction of genealogical person records from listing and detail pages,
//! and comparison of two snapshots of such records.

pub mod diff;
pub mod extract;
pub mod markup;
pub mod models;
pub mod options;
pub mod pages;
pub mod search;
pub mod selectors;
pub mod text;
