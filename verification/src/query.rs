//! The three fixed catalog queries and the exact JSON request bodies the bot
//! sends for them, plus the typed shapes their responses are read into.

use vstd::prelude::*;
use crate::json::{json_quote_str, json_quoted};
use crate::models::{Media, MediaType};
use crate::num::{i32_dec, int_dec_of, parse_i32, parse_i32_of};

verus! {

/// One error entry of the response envelope.
#[derive(Debug)]
pub struct QueryError {
    pub message: Option<String>,
    pub status: Option<i32>,
}

/// The generic response envelope: a result, or a list of upstream errors.
#[derive(Debug)]
pub struct QueryResponse<R> {
    pub data: Option<R>,
    pub errors: Option<Vec<QueryError>>,
}

/// The page of media entries a title query returns.
#[derive(Debug)]
pub struct MediaListPage {
    pub media: Option<Vec<Option<Media>>>,
}

/// The result shape of a title query.
#[derive(Debug)]
pub struct PageResponse {
    pub page: MediaListPage,
}

/// The result shape of a single-media query.
#[derive(Debug)]
pub struct MediaResponse {
    pub media: Media,
}

/// The document of the fetch-by-id query.
pub open spec fn media_query_doc() -> Seq<char> {
    "query($id: Int) {\n\t\t  Media(id: $id) {\n\t\t    id\n\t\t    title {\n\t\t      romaji\n\t\t      english\n\t\t    }\n\t\t\tformat\n\t\t\tdescription\n\t\t    status\n\t\t    episodes\n\t\t    chapters\n\t\t\tcoverImage {\n\t\t\t  medium\n\t\t\t  color\n\t\t\t}\n\t\t\tbannerImage\n\t\t    averageScore\n\t\t  }\n\t\t}"@
}

fn media_query_text() -> (r: &'static str)
    ensures
        r@ == media_query_doc(),
{
    "query($id: Int) {\n\t\t  Media(id: $id) {\n\t\t    id\n\t\t    title {\n\t\t      romaji\n\t\t      english\n\t\t    }\n\t\t\tformat\n\t\t\tdescription\n\t\t    status\n\t\t    episodes\n\t\t    chapters\n\t\t\tcoverImage {\n\t\t\t  medium\n\t\t\t  color\n\t\t\t}\n\t\t\tbannerImage\n\t\t    averageScore\n\t\t  }\n\t\t}"
}

/// The document of the fetch-by-search query.
pub open spec fn search_query_doc() -> Seq<char> {
    "query($search: String, $type: MediaType) {\n\t\t  Media(search: $search, type: $type) {\n\t\t    id\n\t\t    title {\n\t\t      romaji\n\t\t      english\n\t\t    }\n\t\t\tformat\n\t\t\tdescription\n\t\t    status\n\t\t    episodes\n\t\t    chapters\n\t\t\tcoverImage {\n\t\t\t  medium\n\t\t\t  color\n\t\t\t}\n\t\t\tbannerImage\n\t\t    averageScore\n\t\t  }\n\t\t}"@
}

fn search_query_text() -> (r: &'static str)
    ensures
        r@ == search_query_doc(),
{
    "query($search: String, $type: MediaType) {\n\t\t  Media(search: $search, type: $type) {\n\t\t    id\n\t\t    title {\n\t\t      romaji\n\t\t      english\n\t\t    }\n\t\t\tformat\n\t\t\tdescription\n\t\t    status\n\t\t    episodes\n\t\t    chapters\n\t\t\tcoverImage {\n\t\t\t  medium\n\t\t\t  color\n\t\t\t}\n\t\t\tbannerImage\n\t\t    averageScore\n\t\t  }\n\t\t}"
}

/// The document of the title-page query used for autocompletion.
pub open spec fn titles_query_doc() -> Seq<char> {
    "query($search: String, $type: MediaType, $count: Int) {\n          Page(perPage: $count) {\n\t\t    media(search: $search, type: $type) {\n\t\t      id\n\t\t      title {\n\t\t        romaji\n\t\t        english\n\t\t      }\n\t\t\t}\n\t\t  }\n\t\t}"@
}

fn titles_query_text() -> (r: &'static str)
    ensures
        r@ == titles_query_doc(),
{
    "query($search: String, $type: MediaType, $count: Int) {\n          Page(perPage: $count) {\n\t\t    media(search: $search, type: $type) {\n\t\t      id\n\t\t      title {\n\t\t        romaji\n\t\t        english\n\t\t      }\n\t\t\t}\n\t\t  }\n\t\t}"
}

/// The tag a media type carries in query variables.
pub open spec fn media_type_tag(t: MediaType) -> Seq<char> {
    match t {
        MediaType::Anime => "ANIME"@,
        MediaType::Manga => "MANGA"@,
    }
}

/// The tag a media type carries in query variables.
pub fn media_type_text(t: MediaType) -> (r: &'static str)
    ensures
        r@ == media_type_tag(t),
{
    match t {
        MediaType::Anime => "ANIME",
        MediaType::Manga => "MANGA",
    }
}

/// Body of the fetch-by-id request: the document and an `id` variable.
pub open spec fn media_request(id: int) -> Seq<char> {
    "{\"query\":"@ + json_quoted(media_query_doc()) + ",\"variables\":{\"id\":"@ + int_dec_of(id)
        + "}}"@
}

/// Build the fetch-by-id request body.
pub fn media_request_body(id: i32) -> (r: String)
    ensures
        r@ == media_request(id as int),
{
    let mut r = String::from_str("{\"query\":");
    let q = json_quote_str(media_query_text());
    r.append(q.as_str());
    r.append(",\"variables\":{\"id\":");
    let d = i32_dec(id);
    r.append(d.as_str());
    r.append("}}");
    proof {
        assert(r@ =~= media_request(id as int));
    }
    r
}

/// Body of the fetch-by-search request: the document, the search text and
/// the media-type filter.
pub open spec fn search_request(search: Seq<char>, t: MediaType) -> Seq<char> {
    "{\"query\":"@ + json_quoted(search_query_doc()) + ",\"variables\":{\"search\":"@
        + json_quoted(search) + ",\"type\":\""@ + media_type_tag(t) + "\"}}"@
}

/// Build the fetch-by-search request body.
pub fn search_request_body(search: &str, t: MediaType) -> (r: String)
    ensures
        r@ == search_request(search@, t),
{
    let mut r = String::from_str("{\"query\":");
    let q = json_quote_str(search_query_text());
    r.append(q.as_str());
    r.append(",\"variables\":{\"search\":");
    let s = json_quote_str(search);
    r.append(s.as_str());
    r.append(",\"type\":\"");
    r.append(media_type_text(t));
    r.append("\"}}");
    proof {
        assert(r@ =~= search_request(search@, t));
    }
    r
}

/// Body of the title-page request: the document, the page size, the search
/// text and the media-type filter.
pub open spec fn titles_request(search: Seq<char>, t: MediaType, count: int) -> Seq<char> {
    "{\"query\":"@ + json_quoted(titles_query_doc()) + ",\"variables\":{\"count\":"@ + int_dec_of(
        count,
    ) + ",\"search\":"@ + json_quoted(search) + ",\"type\":\""@ + media_type_tag(t) + "\"}}"@
}

/// Build the title-page request body.
pub fn titles_request_body(search: &str, t: MediaType, count: i32) -> (r: String)
    ensures
        r@ == titles_request(search@, t, count as int),
{
    let mut r = String::from_str("{\"query\":");
    let q = json_quote_str(titles_query_text());
    r.append(q.as_str());
    r.append(",\"variables\":{\"count\":");
    let d = i32_dec(count);
    r.append(d.as_str());
    r.append(",\"search\":");
    let s = json_quote_str(search);
    r.append(s.as_str());
    r.append(",\"type\":\"");
    r.append(media_type_text(t));
    r.append("\"}}");
    proof {
        assert(r@ =~= titles_request(search@, t, count as int));
    }
    r
}

/// Body for a lookup of raw user text: text that reads as a 32-bit integer
/// asks for that id, anything else is sent as a search.
pub fn lookup_request_body(input: &str, t: MediaType) -> (r: String)
    ensures
        match parse_i32_of(input@) {
            Some(v) => r@ == media_request(v),
            None => r@ == search_request(input@, t),
        },
{
    match parse_i32(input) {
        Some(id) => media_request_body(id),
        None => search_request_body(input, t),
    }
}

} // verus!
