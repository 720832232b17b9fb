//! Mapping a fetched media record to the embed the bot shows, page entries
//! to autocomplete suggestions, and the declarations of the two commands.

use vstd::prelude::*;
use crate::models::{
    Media, MediaCoverImage, MediaFormat, MediaStatus, MediaTitle, MediaType, status_str,
};
use crate::num::{int_dec_of, i32_dec};
use crate::text::{clean_markup, cleaned_markup, truncate, truncated};

verus! {

/// The title shown for a record: the English title when present, else the
/// romaji title, else empty.
pub open spec fn title_text(t: Option<MediaTitle>) -> Seq<char> {
    match t {
        Some(tt) => match tt.english {
            Some(e) => e@,
            None => match tt.romaji {
                Some(ro) => ro@,
                None => Seq::empty(),
            },
        },
        None => Seq::empty(),
    }
}

/// Pick the displayed title of a record.
pub fn resolve_title(t: &Option<MediaTitle>) -> (r: String)
    ensures
        r@ == title_text(*t),
{
    match t {
        Some(tt) => match &tt.english {
            Some(e) => e.clone(),
            None => match &tt.romaji {
                Some(ro) => ro.clone(),
                None => String::new(),
            },
        },
        None => String::new(),
    }
}

/// The status label shown: a releasing entry is worded per media type,
/// every other status has a fixed label, an absent status shows nothing.
pub open spec fn status_label_text(s: Option<MediaStatus>, t: MediaType) -> Seq<char> {
    match s {
        Some(MediaStatus::Releasing) => match t {
            MediaType::Anime => "Airing"@,
            MediaType::Manga => "Ongoing"@,
        },
        Some(st) => status_str(st),
        None => ""@,
    }
}

/// The status label shown for a record of the given media type.
pub fn status_label(s: &Option<MediaStatus>, t: MediaType) -> (r: &'static str)
    ensures
        r@ == status_label_text(*s, t),
{
    match s {
        Some(MediaStatus::Releasing) => match t {
            MediaType::Anime => "Airing",
            MediaType::Manga => "Ongoing",
        },
        Some(st) => st.str(),
        None => "",
    }
}

/// The score text: "N/A" for zero, else the percentage.
pub open spec fn score_text(score: int) -> Seq<char> {
    if score == 0 {
        "N/A"@
    } else {
        int_dec_of(score) + "%"@
    }
}

/// Format a score for display; an absent score is passed as zero.
pub fn score_label(score: i32) -> (r: String)
    ensures
        r@ == score_text(score as int),
{
    if score == 0 {
        String::from_str("N/A")
    } else {
        let mut r = i32_dec(score);
        r.append("%");
        proof {
            assert(r@ =~= score_text(score as int));
        }
        r
    }
}

/// An absent count reads as zero.
pub open spec fn or_zero(v: Option<i32>) -> int {
    match v {
        Some(n) => n as int,
        None => 0,
    }
}

/// An absent format reads as Tv.
pub open spec fn format_or_tv(f: Option<MediaFormat>) -> MediaFormat {
    match f {
        Some(x) => x,
        None => MediaFormat::Tv,
    }
}

/// Whether the episode/chapter field is left out: when both counts are zero
/// or absent, or the format is one that has no meaningful count.
pub open spec fn counts_suppressed(
    episodes: Option<i32>,
    chapters: Option<i32>,
    format: Option<MediaFormat>,
) -> bool {
    (or_zero(episodes) == 0 && or_zero(chapters) == 0) || format_or_tv(format)
        == MediaFormat::Movie || format_or_tv(format) == MediaFormat::Music || format_or_tv(format)
        == MediaFormat::OneShot
}

/// Decide whether the episode/chapter field is left out.
pub fn suppress_counts(
    episodes: &Option<i32>,
    chapters: &Option<i32>,
    format: &Option<MediaFormat>,
) -> (r: bool)
    ensures
        r == counts_suppressed(*episodes, *chapters, *format),
{
    let e: i32 = match episodes {
        Some(n) => *n,
        None => 0,
    };
    let c: i32 = match chapters {
        Some(n) => *n,
        None => 0,
    };
    let f: MediaFormat = match format {
        Some(x) => *x,
        None => MediaFormat::Tv,
    };
    (e == 0 && c == 0) || f == MediaFormat::Movie || f == MediaFormat::Music || f
        == MediaFormat::OneShot
}

/// Hexadecimal digit value of a character, if it is one.
pub open spec fn hex_digit_val(c: char) -> Option<int> {
    if '0' <= c && c <= '9' {
        Some(c as int - '0' as int)
    } else if 'a' <= c && c <= 'f' {
        Some(c as int - 'a' as int + 10)
    } else if 'A' <= c && c <= 'F' {
        Some(c as int - 'A' as int + 10)
    } else {
        None
    }
}

pub open spec fn all_hex_digits(s: Seq<char>) -> bool {
    forall|i: int| 0 <= i < s.len() ==> hex_digit_val(#[trigger] s[i]) is Some
}

pub open spec fn hex_digit_or_zero(c: char) -> int {
    match hex_digit_val(c) {
        Some(d) => d,
        None => 0,
    }
}

/// Value of a hex digit string, most significant digit first.
pub open spec fn hex_val(s: Seq<char>) -> int
    decreases s.len(),
{
    if s.len() == 0 {
        0
    } else {
        hex_val(s.drop_last()) * 16 + hex_digit_or_zero(s.last())
    }
}

pub open spec fn pow16(n: nat) -> int
    decreases n,
{
    if n == 0 {
        1
    } else {
        16 * pow16((n - 1) as nat)
    }
}

proof fn lemma_hex_val_bound(s: Seq<char>)
    ensures
        0 <= hex_val(s) < pow16(s.len()),
    decreases s.len(),
{
    if s.len() > 0 {
        lemma_hex_val_bound(s.drop_last());
        assert(0 <= hex_digit_or_zero(s.last()) < 16);
    }
}

/// The 24-bit colour of a "#RRGGBB" string; any other input reads as 0.
pub open spec fn hex_color_val(s: Seq<char>) -> int {
    if s.len() == 7 && s[0] == '#' && all_hex_digits(s.subrange(1, 7)) {
        hex_val(s.subrange(1, 7))
    } else {
        0
    }
}

/// Parse a "#RRGGBB" colour string to its 24-bit value; anything else,
/// malformed in any way, yields 0 (black).
pub fn parse_hex_color(s: &str) -> (r: u32)
    ensures
        r as int == hex_color_val(s@),
{
    let n = s.unicode_len();
    if n != 7 {
        return 0;
    }
    if s.get_char(0) != '#' {
        return 0;
    }
    let mut v: u32 = 0;
    let mut i: usize = 1;
    while i < 7
        invariant
            1 <= i <= 7,
            s@.len() == 7,
            s@[0] == '#',
            all_hex_digits(s@.subrange(1, i as int)),
            v as int == hex_val(s@.subrange(1, i as int)),
        decreases 7 - i,
    {
        let c = s.get_char(i);
        let is_num = c >= '0' && c <= '9';
        let is_low = c >= 'a' && c <= 'f';
        let is_up = c >= 'A' && c <= 'F';
        if !(is_num || is_low || is_up) {
            proof {
                assert(hex_digit_val(s@.subrange(1, 7)[i - 1]) is None);
            }
            return 0;
        }
        let d: u32 = if is_num {
            c as u32 - 48
        } else if is_low {
            c as u32 - 87
        } else {
            c as u32 - 55
        };
        let ghost prev = s@.subrange(1, i as int);
        proof {
            lemma_hex_val_bound(prev);
            assert(pow16(0) == 1);
            assert(pow16(1) == 16);
            assert(pow16(2) == 0x100);
            assert(pow16(3) == 0x1000);
            assert(pow16(4) == 0x10000);
            assert(pow16(5) == 0x100000);
            assert(pow16(6) == 0x1000000);
            assert(s@.subrange(1, i + 1).drop_last() =~= prev);
            assert(hex_digit_or_zero(s@.subrange(1, i + 1).last()) == d as int);
        }
        v = v * 16 + d;
        i = i + 1;
    }
    proof {
        assert(s@.subrange(1, i as int) =~= s@.subrange(1, 7));
    }
    v
}

/// The colour shown for a record: the cover's colour string parsed as hex,
/// 0 when the cover or its colour is absent or malformed.
pub open spec fn cover_color(ci: Option<MediaCoverImage>) -> int {
    match ci {
        Some(c) => match c.color {
            Some(h) => hex_color_val(h@),
            None => 0,
        },
        None => 0,
    }
}

/// The thumbnail shown for a record: the cover's image URL, if any.
pub open spec fn cover_thumb(ci: Option<MediaCoverImage>) -> Option<Seq<char>> {
    match ci {
        Some(c) => match c.medium {
            Some(m) => Some(m@),
            None => None,
        },
        None => None,
    }
}

pub open spec fn opt_str_view(o: Option<String>) -> Option<Seq<char>> {
    match o {
        Some(s) => Some(s@),
        None => None,
    }
}

/// Canonical catalog page of a record.
pub open spec fn media_url(t: MediaType, id: int) -> Seq<char> {
    (match t {
        MediaType::Anime => "https://anilist.co/anime/"@,
        MediaType::Manga => "https://anilist.co/manga/"@,
    }) + int_dec_of(id)
}

/// Build the canonical catalog URL of a record.
pub fn media_url_text(t: MediaType, id: i32) -> (r: String)
    ensures
        r@ == media_url(t, id as int),
{
    let mut r = match t {
        MediaType::Anime => String::from_str("https://anilist.co/anime/"),
        MediaType::Manga => String::from_str("https://anilist.co/manga/"),
    };
    let d = i32_dec(id);
    r.append(d.as_str());
    r
}

/// One field of an embed.
pub struct EmbedField {
    pub name: String,
    pub value: String,
    pub inline: bool,
}

/// A rich message embed, flattened to plain data.
pub struct Embed {
    pub title: String,
    pub description: Option<String>,
    pub fields: Vec<EmbedField>,
    pub thumbnail: Option<String>,
    pub image: Option<String>,
    pub color: u32,
    pub url: String,
}

/// The description text shown: the raw text cut to 250 characters first,
/// then the markup substitutions applied.
pub open spec fn description_text(d: Seq<char>) -> Seq<char> {
    cleaned_markup(truncated(d, 250))
}

/// Build the embed shown for a fetched record.
///
/// The field list is: a Status field; then, unless suppressed, an Episodes
/// field (anime) or a Chapters field (manga); then a Score field. All are
/// inline.
pub fn build_embed(media: &Media, t: MediaType) -> (r: Embed)
    ensures
        r.title@ == title_text(media.title),
        opt_str_view(r.description) == match media.description {
            Some(d) => Some(description_text(d@)),
            None => None::<Seq<char>>,
        },
        r.fields@.len() == (if counts_suppressed(media.episodes, media.chapters, media.format) {
            2int
        } else {
            3int
        }),
        r.fields@[0].name@ == "Status"@,
        r.fields@[0].value@ == status_label_text(media.status, t),
        !counts_suppressed(media.episodes, media.chapters, media.format) ==> match t {
            MediaType::Anime => r.fields@[1].name@ == "Episodes"@ && r.fields@[1].value@
                == int_dec_of(or_zero(media.episodes)),
            MediaType::Manga => r.fields@[1].name@ == "Chapters"@ && r.fields@[1].value@
                == int_dec_of(or_zero(media.chapters)),
        },
        r.fields@.last().name@ == "Score"@,
        r.fields@.last().value@ == score_text(or_zero(media.average_score)),
        forall|i: int| 0 <= i < r.fields@.len() ==> (#[trigger] r.fields@[i]).inline == true,
        opt_str_view(r.thumbnail) == cover_thumb(media.cover_image),
        opt_str_view(r.image) == opt_str_view(media.banner_image),
        r.color as int == cover_color(media.cover_image),
        r.url@ == media_url(t, media.id as int),
{
    let title = resolve_title(&media.title);
    let description: Option<String> = match &media.description {
        Some(d) => Some(clean_markup(truncate(d.clone(), 250).as_str())),
        None => None,
    };
    let mut fields: Vec<EmbedField> = Vec::new();
    fields.push(
        EmbedField {
            name: String::from_str("Status"),
            value: String::from_str(status_label(&media.status, t)),
            inline: true,
        },
    );
    if !suppress_counts(&media.episodes, &media.chapters, &media.format) {
        let (cname, count) = match t {
            MediaType::Anime => (
                "Episodes",
                match &media.episodes {
                    Some(n) => *n,
                    None => 0,
                },
            ),
            MediaType::Manga => (
                "Chapters",
                match &media.chapters {
                    Some(n) => *n,
                    None => 0,
                },
            ),
        };
        fields.push(
            EmbedField { name: String::from_str(cname), value: i32_dec(count), inline: true },
        );
    }
    let score: i32 = match &media.average_score {
        Some(n) => *n,
        None => 0,
    };
    fields.push(
        EmbedField { name: String::from_str("Score"), value: score_label(score), inline: true },
    );
    let thumbnail: Option<String> = match &media.cover_image {
        Some(ci) => match &ci.medium {
            Some(m) => Some(m.clone()),
            None => None,
        },
        None => None,
    };
    let color: u32 = match &media.cover_image {
        Some(ci) => match &ci.color {
            Some(h) => parse_hex_color(h.as_str()),
            None => 0,
        },
        None => 0,
    };
    let image: Option<String> = match &media.banner_image {
        Some(b) => Some(b.clone()),
        None => None,
    };
    Embed {
        title,
        description,
        fields,
        thumbnail,
        image,
        color,
        url: media_url_text(t, media.id),
    }
}

/// Suggestion offered while the user types: a display name and the entry's
/// id rendered as text.
pub struct AutocompleteOption {
    pub name: String,
    pub value: String,
}

/// The (name, id-text) pairs for the present entries of a page, in order.
pub open spec fn suggestions_of(s: Seq<Option<Media>>) -> Seq<(Seq<char>, Seq<char>)>
    decreases s.len(),
{
    if s.len() == 0 {
        Seq::empty()
    } else {
        let rest = suggestions_of(s.drop_last());
        match s.last() {
            Some(m) => rest.push((title_text(m.title), int_dec_of(m.id as int))),
            None => rest,
        }
    }
}

pub open spec fn suggestion_views(v: Seq<AutocompleteOption>) -> Seq<(Seq<char>, Seq<char>)> {
    v.map(|i: int, o: AutocompleteOption| (o.name@, o.value@))
}

/// How many entries of a page are present.
pub open spec fn present_count(s: Seq<Option<Media>>) -> int
    decreases s.len(),
{
    if s.len() == 0 {
        0
    } else {
        present_count(s.drop_last()) + (if s.last() is Some {
            1int
        } else {
            0int
        })
    }
}

/// Each present entry of a page yields exactly one suggestion.
pub proof fn lemma_suggestions_count(s: Seq<Option<Media>>)
    ensures
        suggestions_of(s).len() == present_count(s),
    decreases s.len(),
{
    if s.len() > 0 {
        lemma_suggestions_count(s.drop_last());
    }
}

/// Map a page's entries to the suggestions shown, one per present entry,
/// in order; the value of each is the entry's id as a string.
pub fn suggestions(entries: &Vec<Option<Media>>) -> (r: Vec<AutocompleteOption>)
    ensures
        suggestion_views(r@) == suggestions_of(entries@),
{
    let mut r: Vec<AutocompleteOption> = Vec::new();
    let mut i: usize = 0;
    proof {
        assert(suggestion_views(r@) =~= suggestions_of(entries@.subrange(0, 0)));
    }
    while i < entries.len()
        invariant
            i <= entries@.len(),
            suggestion_views(r@) == suggestions_of(entries@.subrange(0, i as int)),
        decreases entries@.len() - i,
    {
        let ghost prev = r@;
        match &entries[i] {
            Some(m) => {
                let name = resolve_title(&m.title);
                let value = i32_dec(m.id);
                r.push(AutocompleteOption { name, value });
            },
            None => {},
        }
        i = i + 1;
        proof {
            assert(entries@.subrange(0, i as int).drop_last() =~= entries@.subrange(0, i - 1));
            assert(entries@.subrange(0, i as int).last() == entries@[i - 1]);
            assert(suggestion_views(r@) =~= suggestions_of(entries@.subrange(0, i as int)));
        }
    }
    proof {
        assert(entries@.subrange(0, entries@.len() as int) =~= entries@);
    }
    r
}

/// Declaration of one slash command: its name and description, and its one
/// required, autocomplete-enabled string argument.
pub struct CommandSpec {
    pub name: String,
    pub description: String,
    pub option_name: String,
    pub option_description: String,
    pub autocomplete: bool,
    pub required: bool,
}

/// The declaration registered for a media type's lookup command.
pub fn command_spec(t: MediaType) -> (r: CommandSpec)
    ensures
        r.name@ == match t {
            MediaType::Anime => "anime"@,
            MediaType::Manga => "manga"@,
        },
        r.description@ == match t {
            MediaType::Anime => "Search anime on AniList"@,
            MediaType::Manga => "Search manga on AniList"@,
        },
        r.option_name@ == "name"@,
        r.option_description@ == match t {
            MediaType::Anime => "The name of the anime"@,
            MediaType::Manga => "The name of the manga"@,
        },
        r.autocomplete == true,
        r.required == true,
{
    match t {
        MediaType::Anime => CommandSpec {
            name: String::from_str("anime"),
            description: String::from_str("Search anime on AniList"),
            option_name: String::from_str("name"),
            option_description: String::from_str("The name of the anime"),
            autocomplete: true,
            required: true,
        },
        MediaType::Manga => CommandSpec {
            name: String::from_str("manga"),
            description: String::from_str("Search manga on AniList"),
            option_name: String::from_str("name"),
            option_description: String::from_str("The name of the manga"),
            autocomplete: true,
            required: true,
        },
    }
}

} // verus!
