use vstd::prelude::*;
use crate::outline::{place_content, place_title, PlaceModel};

verus! {

/// One place of an outline, ready to be stored under its parent record.
#[derive(Clone, Debug)]
pub struct Detail {
    pub id: String,
    pub parent_id: String,
    /// `Day <n> - <day title>`
    pub title: String,
    /// `Place <n>: <name>`, a newline, then the bullet lines joined by newlines.
    pub content: String,
    /// Minutes; 0 when the outline gives none that can be read.
    pub estimated_duration: u32,
    pub language: String,
    pub completed: bool,
    /// Milliseconds since the Unix epoch.
    pub created_at: i64,
    /// Milliseconds since the Unix epoch.
    pub updated_at: i64,
}

/// `d` is the record made from place section `p` for the given parent, language and time.
pub open spec fn describes(
    d: Detail,
    p: PlaceModel,
    parent_id: Seq<char>,
    language: Seq<char>,
    now: i64,
) -> bool {
    &&& d.title@ == place_title(p)
    &&& d.content@ == place_content(p)
    &&& d.estimated_duration == p.duration
    &&& d.parent_id@ == parent_id
    &&& d.language@ == language
    &&& !d.completed
    &&& d.created_at == now
    &&& d.updated_at == now
}

} // verus!
