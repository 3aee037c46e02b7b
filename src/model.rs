//! The gallery's records.

use vstd::prelude::*;

verus! {

/// A calendar date and time of day, without a time zone, as the store keeps it.
#[derive(Clone, Copy, Debug, PartialEq, Eq, Structural)]
pub struct Timestamp {
    pub year: i32,
    pub month: u32,
    pub day: u32,
    pub hour: u32,
    pub minute: u32,
    pub second: u32,
    pub nanosecond: u32,
}

/// A stored photo: its row in the store, joined to its blob by `filename`.
#[derive(Clone, Debug)]
pub struct Photo {
    pub id: i32,
    pub filename: String,
    pub title: String,
    pub description: Option<String>,
    pub upload_time: Timestamp,
}

/// The text fields that a client gives for a new photo.
#[derive(Clone, Debug)]
pub struct CreatePhoto {
    pub title: String,
    pub description: Option<String>,
}

/// The text of an optional string.
pub open spec fn opt_text(o: Option<String>) -> Option<Seq<char>> {
    match o {
        Some(s) => Some(s@),
        None => None,
    }
}

} // verus!
