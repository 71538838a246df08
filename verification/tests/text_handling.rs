use ten_four::text::{ends_with, eq_ignore_ascii_case, is_white_space, trim};
use ten_four::transcribe::{gpu_enabled_by, gpu_requested, is_filler_segment, join_segments, num_threads};

#[test]
fn trim_removes_outer_whitespace() {
    assert_eq!(trim("  hi there \n"), "hi there");
    assert_eq!(trim("\t\r\nword"), "word");
    assert_eq!(trim(""), "");
    assert_eq!(trim("   "), "");
    assert_eq!(trim("\u{A0}x\u{3000}"), "x");
    assert_eq!(trim("a b"), "a b");
}

#[test]
fn ascii_case_insensitive_comparison() {
    assert!(eq_ignore_ascii_case("[BLANK_AUDIO]", "[blank_audio]"));
    assert!(eq_ignore_ascii_case("Straße", "STRAßE"));
    assert!(!eq_ignore_ascii_case("Straße", "STRASSE"));
    assert!(!eq_ignore_ascii_case("ab", "abc"));
    assert!(!eq_ignore_ascii_case("é", "É"));
}

#[test]
fn suffix_test() {
    assert!(ends_with("ggml-tiny.bin", ".bin"));
    assert!(!ends_with("ggml-tiny.bin.part", ".bin"));
    assert!(ends_with(".bin", ".bin"));
    assert!(!ends_with("bin", ".bin"));
}

#[test]
fn filler_markers() {
    assert!(is_filler_segment("[BLANK_AUDIO]"));
    assert!(is_filler_segment("(Silence)"));
    assert!(!is_filler_segment("silence"));
    assert!(!is_filler_segment("Hello"));
}

#[test]
fn segments_are_trimmed_filtered_and_joined() {
    let segs: Vec<String> = vec![
        " Hello".to_string(),
        " [BLANK_AUDIO]".to_string(),
        "world. ".to_string(),
        "   ".to_string(),
        "(silence)".to_string(),
        " How are you?".to_string(),
    ];
    assert_eq!(join_segments(&segs), "Hello world. How are you?");
}

#[test]
fn no_speech_gives_empty_transcript() {
    let segs: Vec<String> = vec![" [BLANK_AUDIO] ".to_string(), "".to_string()];
    assert_eq!(join_segments(&segs), "");
    assert_eq!(join_segments(&Vec::new()), "");
}

#[test]
fn thread_count() {
    assert_eq!(num_threads(0), 1);
    assert_eq!(num_threads(1), 1);
    assert_eq!(num_threads(2), 1);
    assert_eq!(num_threads(5), 2);
    assert_eq!(num_threads(8), 4);
    assert_eq!(num_threads(64), 4);
}

#[test]
fn gpu_setting() {
    assert!(!gpu_requested(None));
    assert!(gpu_requested(Some("1".to_string())));
    assert!(gpu_requested(Some("true".to_string())));
    assert!(gpu_requested(Some("TRUE".to_string())));
    assert!(gpu_requested(Some("True".to_string())));
    assert!(!gpu_requested(Some("0".to_string())));
    assert!(!gpu_requested(Some("yes".to_string())));
    assert!(!gpu_requested(Some(" 1".to_string())));
    assert!(gpu_enabled_by("TRUE", "true"));
    assert!(!gpu_enabled_by("TRUE", "TRUE"));
}

#[test]
fn whitespace_set() {
    for c in [' ', '\t', '\n', '\u{0B}', '\u{0C}', '\r', '\u{85}', '\u{A0}', '\u{1680}', '\u{2000}', '\u{200A}', '\u{2028}', '\u{2029}', '\u{202F}', '\u{205F}', '\u{3000}'] {
        assert!(is_white_space(c), "{:?}", c);
        assert_eq!(is_white_space(c), c.is_whitespace());
    }
    for c in ['a', '\u{200B}', '\u{180E}', '\u{FEFF}', '_', '\0'] {
        assert!(!is_white_space(c), "{:?}", c);
        assert_eq!(is_white_space(c), c.is_whitespace());
    }
}
