use media_compressor::text::{chars_of, contains, ends_with, lower_char, lowered_equals, matches_at};

fn chars(s: &str) -> Vec<char> {
    s.chars().collect()
}

#[test]
fn chars_of_keeps_every_character_in_order() {
    assert_eq!(chars_of("héllo"), vec!['h', 'é', 'l', 'l', 'o']);
    assert_eq!(chars_of(""), Vec::<char>::new());
}

#[test]
fn ends_with_accepts_only_a_true_tail() {
    assert!(ends_with(&chars("bin/ffmpeg"), &chars("ffmpeg")));
    assert!(ends_with(&chars("ffmpeg"), &chars("ffmpeg")));
    assert!(ends_with(&chars("anything"), &chars("")));
    assert!(!ends_with(&chars("ffmpeg.txt"), &chars("ffmpeg")));
    assert!(!ends_with(&chars("peg"), &chars("ffmpeg")));
}

#[test]
fn contains_finds_a_needle_at_every_position() {
    let hay = chars("sh: 1: ffmpeg: not found");
    assert!(contains(&hay, &chars("ffmpeg: not found")));
    assert!(contains(&hay, &chars("sh")));
    assert!(contains(&hay, &chars("")));
    assert!(!contains(&hay, &chars("command not found")));
    assert!(!contains(&chars("ab"), &chars("abc")));
}

#[test]
fn matches_at_checks_the_given_position_only() {
    let hay = chars("abcabc");
    assert!(matches_at(&hay, &chars("abc"), 0));
    assert!(matches_at(&hay, &chars("abc"), 3));
    assert!(!matches_at(&hay, &chars("abc"), 1));
    assert!(!matches_at(&hay, &chars("abc"), 4));
    assert!(!matches_at(&hay, &chars("abc"), 100));
}

#[test]
fn lower_char_lowers_ascii_capitals_only() {
    assert_eq!(lower_char('A'), 'a');
    assert_eq!(lower_char('Z'), 'z');
    assert_eq!(lower_char('q'), 'q');
    assert_eq!(lower_char('7'), '7');
    assert_eq!(lower_char('É'), 'É');
}

#[test]
fn lowered_equals_ignores_ascii_case_of_the_first_argument() {
    assert!(lowered_equals(&chars("PNG"), &chars("png")));
    assert!(lowered_equals(&chars("pNg"), &chars("png")));
    assert!(!lowered_equals(&chars("png"), &chars("PNG")));
    assert!(!lowered_equals(&chars("pngs"), &chars("png")));
}
