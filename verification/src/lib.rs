//! Verified core of an AniList lookup bot: the exact request bodies it
//! sends, and the mapping from fetched catalog records to the message
//! embeds and autocomplete suggestions it shows.

pub mod json;
pub mod lookup;
pub mod models;
pub mod num;
pub mod ping;
pub mod query;
pub mod text;
