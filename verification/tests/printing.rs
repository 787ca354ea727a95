use tbl::banner::{banner_lines, pad, url_box_lines};
use tbl::text::{
    contains, from_chars, matches_at, same_secret, same_str, starts_with, to_chars,
};

#[test]
fn banner_frames_name_and_version() {
    assert_eq!(
        banner_lines("0.1.0"),
        vec![
            "",
            "  ╭─────────────────────────────────────────╮",
            "  │                                         │",
            "  │   tbl v0.1.0                            │",
            "  │   Tiny self-bootstrapping web launcher  │",
            "  │                                         │",
            "  ╰─────────────────────────────────────────╯",
        ]
    );
}

#[test]
fn banner_pads_the_version_as_the_standard_library_does() {
    for version in ["", "1", "0.1.0", "12.345.6789-beta.1+build.2024", &"9".repeat(32), &"9".repeat(40), "ü.1"] {
        let lines = banner_lines(version);
        assert_eq!(lines.len(), 7);
        assert_eq!(lines[3], format!("  │   tbl v{:<32} │", version));
        assert_eq!(from_chars(&pad(version, 32)), format!("{:<32}", version));
    }
}

#[test]
fn url_is_framed_with_four_spaces_on_each_side() {
    let url = "http://127.0.0.1:1237/bootstrap?token=abc123";
    let lines = url_box_lines(url).expect("a URL of ordinary length");
    assert_eq!(
        lines,
        vec![
            format!("  ╭{}╮", "─".repeat(url.len() + 8)),
            format!("  │    {}    │", url),
            format!("  ╰{}╯", "─".repeat(url.len() + 8)),
        ]
    );
    assert_eq!(lines[0].chars().count(), lines[1].chars().count());
}

#[test]
fn empty_url_has_a_frame_of_eight() {
    assert_eq!(
        url_box_lines(""),
        Some(vec!["  ╭────────╮".to_string(), "  │        │".to_string(), "  ╰────────╯".to_string()])
    );
}

#[test]
fn frame_counts_the_bytes_of_the_url() {
    let lines = url_box_lines("é").expect("a short URL");
    assert_eq!(lines[0], format!("  ╭{}╮", "─".repeat(10)));
    assert_eq!(lines[1], "  │    é    │");
}

#[test]
fn text_goes_through_characters_unchanged() {
    for text in ["", "a", "tbl_token=abc", "ünïcödé ─ ⏎ 🦀", "\r\n\t"] {
        assert_eq!(from_chars(&to_chars(text)), text);
        assert_eq!(to_chars(text), text.chars().collect::<Vec<char>>());
    }
}

#[test]
fn searching_is_that_of_the_standard_library() {
    let texts = ["", "a", "aa", "ab", "abc", "aab", "abab", "HTTP/1.1 200 OK", "shutting_down", "é─é"];
    for haystack in texts {
        for needle in texts {
            let h = to_chars(haystack);
            let n = to_chars(needle);
            assert_eq!(contains(&h, &n), haystack.contains(needle), "{:?} in {:?}", needle, haystack);
            assert_eq!(starts_with(&h, &n), haystack.starts_with(needle));
            assert_eq!(same_str(haystack, needle), haystack == needle);
            assert_eq!(same_secret(haystack, needle), haystack == needle);
            assert_eq!(matches_at(&h, &n, 0), haystack.starts_with(needle));
            assert_eq!(matches_at(&h, &n, h.len()), needle.is_empty());
        }
    }
}
