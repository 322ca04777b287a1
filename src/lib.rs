//! Reading itinerary outlines into place records, and the small pieces of logic around
//! Open Graph records: head tags, identifiers, uploads and list search.

use vstd::prelude::*;

pub mod detail;
pub mod forms;
pub mod listing;
pub mod markers;
pub mod metadata;
pub mod object_id;
pub mod outline;
pub mod parser;
pub mod requests;
pub mod text;
pub mod upload;

pub use detail::Detail;
pub use parser::{parse_outline, parse_outline_with};

verus! {

} // verus!
