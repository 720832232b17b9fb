//! The subset of the catalog's media record that the bot reads. Every field
//! but the id may be absent in an upstream response.

use vstd::prelude::*;

verus! {

/// Romaji/English title pair.
#[derive(Debug, Clone)]
pub struct MediaTitle {
    pub romaji: Option<String>,
    pub english: Option<String>,
}

/// The two media catalogs a lookup can address.
#[derive(Debug, PartialEq, Eq, Structural, Clone, Copy)]
pub enum MediaType {
    Anime,
    Manga,
}

/// Release format of a media entry.
#[derive(Debug, PartialEq, Eq, Structural, Clone, Copy)]
pub enum MediaFormat {
    Tv,
    TvShort,
    Movie,
    Special,
    Ova,
    Ona,
    Music,
    Manga,
    Novel,
    OneShot,
}

/// Publication status of a media entry.
#[derive(Debug, PartialEq, Eq, Structural, Clone, Copy)]
pub enum MediaStatus {
    Finished,
    Releasing,
    NotYetReleased,
    Cancelled,
    Hiatus,
}

/// Fixed display label of each status, independent of the media type.
pub open spec fn status_str(s: MediaStatus) -> Seq<char> {
    match s {
        MediaStatus::Finished => "Finished"@,
        MediaStatus::Releasing => "Releasing"@,
        MediaStatus::NotYetReleased => "Upcoming"@,
        MediaStatus::Cancelled => "Cancelled"@,
        MediaStatus::Hiatus => "Hiatus"@,
    }
}

impl MediaStatus {
    /// Fixed display label of the status.
    pub fn str(&self) -> (r: &'static str)
        ensures
            r@ == status_str(*self),
    {
        match self {
            MediaStatus::Finished => "Finished",
            MediaStatus::Releasing => "Releasing",
            MediaStatus::NotYetReleased => "Upcoming",
            MediaStatus::Cancelled => "Cancelled",
            MediaStatus::Hiatus => "Hiatus",
        }
    }
}

/// Cover image of a media entry: a thumbnail URL and a dominant colour
/// written as a "#RRGGBB" string.
#[derive(Debug, Clone)]
pub struct MediaCoverImage {
    pub medium: Option<String>,
    pub color: Option<String>,
}

/// One media record.
#[derive(Debug, Clone)]
pub struct Media {
    pub id: i32,
    pub title: Option<MediaTitle>,
    pub media_type: Option<MediaType>,
    pub format: Option<MediaFormat>,
    pub description: Option<String>,
    pub status: Option<MediaStatus>,
    pub episodes: Option<i32>,
    pub chapters: Option<i32>,
    pub cover_image: Option<MediaCoverImage>,
    pub banner_image: Option<String>,
    pub average_score: Option<i32>,
}

} // verus!
