use anilist_bot::lookup::{
    build_embed, command_spec, parse_hex_color, resolve_title, score_label, status_label,
    suggestions, suppress_counts,
};
use anilist_bot::models::{Media, MediaCoverImage, MediaFormat, MediaStatus, MediaTitle, MediaType};
use anilist_bot::ping::pong_message;
use anilist_bot::text::{clean_markup, replace_all, truncate};

fn media_with_defaults(id: i32) -> Media {
    Media {
        id,
        title: None,
        media_type: None,
        format: None,
        description: None,
        status: None,
        episodes: None,
        chapters: None,
        cover_image: None,
        banner_image: None,
        average_score: None,
    }
}

#[test]
fn truncate_short_text_is_unchanged() {
    assert_eq!(truncate(String::from("hello"), 250), "hello");
    assert_eq!(truncate(String::new(), 250), "");
}

#[test]
fn truncate_at_the_boundary_is_unchanged() {
    let s: String = std::iter::repeat('x').take(250).collect();
    assert_eq!(truncate(s.clone(), 250), s);
}

#[test]
fn truncate_long_text_appends_ellipsis() {
    let s: String = std::iter::repeat('x').take(251).collect();
    let r = truncate(s, 250);
    assert_eq!(r.chars().count(), 253);
    assert!(r.ends_with("..."));
}

#[test]
fn truncate_counts_characters_not_bytes() {
    let s: String = std::iter::repeat('é').take(300).collect();
    let r = truncate(s, 250);
    let expected: String = std::iter::repeat('é').take(250).collect::<String>() + "...";
    assert_eq!(r, expected);
}

#[test]
fn replace_all_rewrites_every_occurrence() {
    assert_eq!(replace_all("aaa", "a", "bb"), "bbbbbb");
    assert_eq!(replace_all("none here", "xyz", "!"), "none here");
    assert_eq!(replace_all("", "x", "y"), "");
    assert_eq!(replace_all("ababab", "ab", ""), "");
    // Leftmost, non-overlapping, as str::replace scans.
    assert_eq!(replace_all("aaa", "aa", "b"), "ba");
    assert_eq!("aaa".replace("aa", "b"), replace_all("aaa", "aa", "b"));
}

#[test]
fn markup_substitutions_match_the_fixed_table() {
    assert_eq!(clean_markup("a<br><br>b<br>c<i>d</i>"), "a\nbc*d*");
    // The double line break is rewritten before the single one is removed.
    assert_eq!(clean_markup("<br><br><br>"), "\n");
    assert_eq!(clean_markup("plain"), "plain");
}

#[test]
fn hex_color_parses_well_formed_input() {
    assert_eq!(parse_hex_color("#336699"), 0x336699);
    assert_eq!(parse_hex_color("#000000"), 0);
    assert_eq!(parse_hex_color("#FFffFF"), 0xFFFFFF);
    assert_eq!(parse_hex_color("#AbCdEf"), 0xABCDEF);
}

#[test]
fn hex_color_rejects_everything_else() {
    assert_eq!(parse_hex_color(""), 0);
    assert_eq!(parse_hex_color("#"), 0);
    assert_eq!(parse_hex_color("#12345"), 0);
    assert_eq!(parse_hex_color("#1234567"), 0);
    assert_eq!(parse_hex_color("336699"), 0);
    assert_eq!(parse_hex_color("#33669g"), 0);
    assert_eq!(parse_hex_color("#+1+2+3"), 0);
    assert_eq!(parse_hex_color("#é12345"), 0);
}

#[test]
fn title_prefers_english_then_romaji_then_empty() {
    let both = Some(MediaTitle {
        romaji: Some(String::from("Shingeki no Kyojin")),
        english: Some(String::from("Attack on Titan")),
    });
    assert_eq!(resolve_title(&both), "Attack on Titan");

    let romaji_only = Some(MediaTitle {
        romaji: Some(String::from("Shingeki no Kyojin")),
        english: None,
    });
    assert_eq!(resolve_title(&romaji_only), "Shingeki no Kyojin");

    let neither = Some(MediaTitle { romaji: None, english: None });
    assert_eq!(resolve_title(&neither), "");
    assert_eq!(resolve_title(&None), "");
}

#[test]
fn status_label_words_releasing_per_media_type() {
    assert_eq!(status_label(&Some(MediaStatus::Releasing), MediaType::Anime), "Airing");
    assert_eq!(status_label(&Some(MediaStatus::Releasing), MediaType::Manga), "Ongoing");
    assert_eq!(status_label(&Some(MediaStatus::Finished), MediaType::Anime), "Finished");
    assert_eq!(status_label(&Some(MediaStatus::Finished), MediaType::Manga), "Finished");
    assert_eq!(status_label(&Some(MediaStatus::NotYetReleased), MediaType::Anime), "Upcoming");
    assert_eq!(status_label(&Some(MediaStatus::Cancelled), MediaType::Manga), "Cancelled");
    assert_eq!(status_label(&Some(MediaStatus::Hiatus), MediaType::Manga), "Hiatus");
    assert_eq!(status_label(&None, MediaType::Anime), "");
}

#[test]
fn status_str_gives_the_fixed_labels() {
    assert_eq!(MediaStatus::Finished.str(), "Finished");
    assert_eq!(MediaStatus::Releasing.str(), "Releasing");
    assert_eq!(MediaStatus::NotYetReleased.str(), "Upcoming");
    assert_eq!(MediaStatus::Cancelled.str(), "Cancelled");
    assert_eq!(MediaStatus::Hiatus.str(), "Hiatus");
}

#[test]
fn score_formats_zero_as_not_available() {
    assert_eq!(score_label(0), "N/A");
    assert_eq!(score_label(87), "87%");
    assert_eq!(score_label(100), "100%");
}

#[test]
fn counts_suppressed_when_both_zero_or_format_has_none() {
    assert!(suppress_counts(&Some(0), &Some(0), &Some(MediaFormat::Tv)));
    assert!(suppress_counts(&None, &None, &None));
    assert!(!suppress_counts(&Some(24), &Some(0), &Some(MediaFormat::Tv)));
    assert!(!suppress_counts(&Some(0), &Some(120), &None));
    assert!(suppress_counts(&Some(1), &Some(0), &Some(MediaFormat::Movie)));
    assert!(suppress_counts(&Some(50), &Some(0), &Some(MediaFormat::Music)));
    assert!(suppress_counts(&Some(0), &Some(1), &Some(MediaFormat::OneShot)));
    assert!(!suppress_counts(&Some(12), &Some(0), &Some(MediaFormat::Ova)));
}

#[test]
fn embed_for_a_full_anime_record() {
    let mut m = media_with_defaults(16498);
    m.title = Some(MediaTitle {
        romaji: Some(String::from("Shingeki no Kyojin")),
        english: Some(String::from("Attack on Titan")),
    });
    m.format = Some(MediaFormat::Tv);
    m.description = Some(String::from("Humanity fights.<br><br>Walls<br> protect <i>nobody</i>."));
    m.status = Some(MediaStatus::Releasing);
    m.episodes = Some(24);
    m.chapters = Some(0);
    m.cover_image = Some(MediaCoverImage {
        medium: Some(String::from("https://img.example/cover.png")),
        color: Some(String::from("#336699")),
    });
    m.banner_image = Some(String::from("https://img.example/banner.png"));
    m.average_score = Some(87);

    let e = build_embed(&m, MediaType::Anime);
    assert_eq!(e.title, "Attack on Titan");
    assert_eq!(
        e.description.as_deref(),
        Some("Humanity fights.\nWalls protect *nobody*.")
    );
    assert_eq!(e.fields.len(), 3);
    assert_eq!(e.fields[0].name, "Status");
    assert_eq!(e.fields[0].value, "Airing");
    assert!(e.fields[0].inline);
    assert_eq!(e.fields[1].name, "Episodes");
    assert_eq!(e.fields[1].value, "24");
    assert!(e.fields[1].inline);
    assert_eq!(e.fields[2].name, "Score");
    assert_eq!(e.fields[2].value, "87%");
    assert!(e.fields[2].inline);
    assert_eq!(e.thumbnail.as_deref(), Some("https://img.example/cover.png"));
    assert_eq!(e.image.as_deref(), Some("https://img.example/banner.png"));
    assert_eq!(e.color, 0x336699);
    assert_eq!(e.url, "https://anilist.co/anime/16498");
}

#[test]
fn embed_for_a_sparse_manga_record() {
    let mut m = media_with_defaults(30002);
    m.chapters = Some(141);
    m.status = Some(MediaStatus::Finished);
    let e = build_embed(&m, MediaType::Manga);
    assert_eq!(e.title, "");
    assert_eq!(e.description, None);
    assert_eq!(e.fields.len(), 3);
    assert_eq!(e.fields[0].value, "Finished");
    assert_eq!(e.fields[1].name, "Chapters");
    assert_eq!(e.fields[1].value, "141");
    assert_eq!(e.fields[2].value, "N/A");
    assert_eq!(e.thumbnail, None);
    assert_eq!(e.image, None);
    assert_eq!(e.color, 0);
    assert_eq!(e.url, "https://anilist.co/manga/30002");
}

#[test]
fn embed_suppresses_counts_for_a_movie() {
    let mut m = media_with_defaults(1);
    m.format = Some(MediaFormat::Movie);
    m.episodes = Some(1);
    let e = build_embed(&m, MediaType::Anime);
    assert_eq!(e.fields.len(), 2);
    assert_eq!(e.fields[0].name, "Status");
    assert_eq!(e.fields[1].name, "Score");
}

#[test]
fn embed_color_defaults_to_black_on_malformed_hex() {
    let mut m = media_with_defaults(2);
    m.cover_image = Some(MediaCoverImage {
        medium: None,
        color: Some(String::from("blue")),
    });
    let e = build_embed(&m, MediaType::Anime);
    assert_eq!(e.color, 0);
    assert_eq!(e.thumbnail, None);
}

#[test]
fn embed_truncates_long_description_before_substitutions() {
    let long: String = std::iter::repeat('a').take(260).collect();
    let mut m = media_with_defaults(3);
    m.description = Some(long);
    let e = build_embed(&m, MediaType::Anime);
    let expected: String = std::iter::repeat('a').take(250).collect::<String>() + "...";
    assert_eq!(e.description.as_deref(), Some(expected.as_str()));

    // The cut lands inside a markup tag: the tag's remainder is gone before
    // the substitutions run, so the leading "<" stays as it is.
    let straddling: String = std::iter::repeat('a').take(249).collect::<String>() + "<br><br>done";
    let mut m2 = media_with_defaults(4);
    m2.description = Some(straddling);
    let e2 = build_embed(&m2, MediaType::Anime);
    let expected2: String = std::iter::repeat('a').take(249).collect::<String>() + "<...";
    assert_eq!(e2.description.as_deref(), Some(expected2.as_str()));
}

#[test]
fn three_entries_yield_three_suggestions() {
    let mut a = media_with_defaults(1);
    a.title = Some(MediaTitle { romaji: Some(String::from("Alpha")), english: None });
    let mut b = media_with_defaults(22);
    b.title = Some(MediaTitle {
        romaji: Some(String::from("Beta")),
        english: Some(String::from("Beta EN")),
    });
    let c = media_with_defaults(333);
    let entries = vec![Some(a), Some(b), Some(c)];
    let s = suggestions(&entries);
    assert_eq!(s.len(), 3);
    assert_eq!(s[0].name, "Alpha");
    assert_eq!(s[0].value, "1");
    assert_eq!(s[1].name, "Beta EN");
    assert_eq!(s[1].value, "22");
    assert_eq!(s[2].name, "");
    assert_eq!(s[2].value, "333");
}

#[test]
fn absent_entries_yield_no_suggestions() {
    let mut a = media_with_defaults(7);
    a.title = Some(MediaTitle { romaji: Some(String::from("Only")), english: None });
    let entries = vec![None, Some(a), None];
    let s = suggestions(&entries);
    assert_eq!(s.len(), 1);
    assert_eq!(s[0].name, "Only");
    assert_eq!(s[0].value, "7");

    assert_eq!(suggestions(&Vec::new()).len(), 0);
}

#[test]
fn command_declarations_for_both_media_types() {
    let anime = command_spec(MediaType::Anime);
    assert_eq!(anime.name, "anime");
    assert_eq!(anime.description, "Search anime on AniList");
    assert_eq!(anime.option_name, "name");
    assert_eq!(anime.option_description, "The name of the anime");
    assert!(anime.autocomplete);
    assert!(anime.required);

    let manga = command_spec(MediaType::Manga);
    assert_eq!(manga.name, "manga");
    assert_eq!(manga.description, "Search manga on AniList");
    assert_eq!(manga.option_description, "The name of the manga");
}

#[test]
fn pong_reports_the_elapsed_milliseconds() {
    assert_eq!(pong_message(0), "pong 0ms");
    assert_eq!(pong_message(123), "pong 123ms");
    assert_eq!(pong_message(18446744073709551615), "pong 18446744073709551615ms");
}
