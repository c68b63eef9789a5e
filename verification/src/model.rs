//! The shapes the foreign parser's JSON output takes: tags, time-table
//! rows, and the metadata record that `find_meta` serializes. The
//! pipeline itself moves the parser output as opaque text; these types
//! document and carry the decoded form where a consumer needs it.

use vstd::prelude::*;

verus! {

/// A named link, as the tag parser emits it.
pub struct TagSrc {
    pub name: String,
    pub url: String,
}

/// One row of a time table.
pub struct TimeTableSrc {
    pub index: i32,
    pub title: String,
    pub time: String,
}

/// The metadata record the meta parser emits.
pub struct MetaSrc {
    pub id: String,
    pub title: String,
    pub url: String,
    pub img_src: Option<String>,
    pub time: i64,
    pub cv: Vec<TagSrc>,
    pub genre: Vec<TagSrc>,
    pub illust: Vec<TagSrc>,
    pub circle: Vec<TagSrc>,
    pub series: Vec<TagSrc>,
    pub time_table: Vec<TimeTableSrc>,
}

} // verus!
