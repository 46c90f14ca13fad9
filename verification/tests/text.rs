use canvas_socket::config::Config;
use canvas_socket::heartbeat::{Heartbeat, Verdict};
use canvas_socket::text::trim;

#[test]
fn trim_strips_spaces_on_both_sides() {
    assert_eq!(trim("  hello  "), "hello");
}

#[test]
fn trim_leaves_clean_text_alone() {
    assert_eq!(trim("hello"), "hello");
}

#[test]
fn trim_keeps_whitespace_between_words() {
    assert_eq!(trim("\t hello   big\nworld \r\n"), "hello   big\nworld");
}

#[test]
fn trim_of_empty_text_is_empty() {
    assert_eq!(trim(""), "");
}

#[test]
fn trim_of_blank_text_is_empty() {
    assert_eq!(trim(" \t\r\n \u{a0}\u{3000}"), "");
}

#[test]
fn trim_strips_on_one_side_only() {
    assert_eq!(trim("   left"), "left");
    assert_eq!(trim("right   "), "right");
}

#[test]
fn trim_keeps_a_single_character() {
    assert_eq!(trim(" x "), "x");
    assert_eq!(trim("x"), "x");
}

#[test]
fn trim_knows_unicode_whitespace() {
    assert_eq!(trim("\u{2003}\u{a0}caf\u{e9} au lait\u{2028}\u{3000}"), "caf\u{e9} au lait");
}

#[test]
fn trim_keeps_characters_that_only_look_blank() {
    // the zero width space is no whitespace to Unicode
    assert_eq!(trim(" \u{200b}a\u{200b} "), "\u{200b}a\u{200b}");
}

#[test]
fn trim_counts_characters_not_bytes() {
    assert_eq!(trim("\u{3000}\u{65e5}\u{672c}\u{8a9e} \u{1f600}\u{3000}"), "\u{65e5}\u{672c}\u{8a9e} \u{1f600}");
}

#[test]
fn trim_agrees_with_the_standard_library() {
    let samples = vec![
        "",
        " ",
        "a",
        " a",
        "a ",
        "  a  b  ",
        "\n\n\tline one\nline two\n\n",
        "\u{85}next line\u{85}",
        "\u{1680}ogham\u{1680}",
        "\u{2000}\u{2001}\u{2002}quads\u{2009}\u{200a}",
        "\u{202f}narrow\u{205f}",
        "\u{feff}bom\u{feff}",
        "\u{180e}vowel separator\u{180e}",
        "\u{b}\u{c}vertical\u{1c}\u{1f}",
    ];
    for sample in samples {
        assert_eq!(trim(sample), sample.trim(), "on {:?}", sample);
    }
}

#[test]
fn config_defaults() {
    let config = Config::default();
    assert_eq!(config.heartbeat_interval_ms, 5_000);
    assert_eq!(config.client_timeout_ms, 10_000);
    assert_eq!(config.max_frame_size, 128 * 1024);
    assert_eq!(config.max_aggregated_message_size, 2 * 1024 * 1024);
}

#[test]
fn heartbeat_starts_at_the_opening() {
    let heartbeat = Heartbeat::new(42);
    assert_eq!(heartbeat.last_alive(), 42);
    assert_eq!(heartbeat.silence(42), 0);
}

#[test]
fn heartbeat_confirm_sets_the_record_to_now() {
    let mut heartbeat = Heartbeat::new(100);
    heartbeat.confirm(250);
    assert_eq!(heartbeat.last_alive(), 250);
    heartbeat.confirm(250);
    assert_eq!(heartbeat.last_alive(), 250);
}

#[test]
fn heartbeat_record_never_moves_back() {
    let mut heartbeat = Heartbeat::new(1_000);
    heartbeat.confirm(400);
    assert_eq!(heartbeat.last_alive(), 1_000);
    heartbeat.confirm(0);
    assert_eq!(heartbeat.last_alive(), 1_000);
}

#[test]
fn heartbeat_silence_is_the_time_since_the_record() {
    let heartbeat = Heartbeat::new(1_000);
    assert_eq!(heartbeat.silence(1_000), 0);
    assert_eq!(heartbeat.silence(1_001), 1);
    assert_eq!(heartbeat.silence(11_000), 10_000);
    assert_eq!(heartbeat.silence(u64::MAX), u64::MAX - 1_000);
}

#[test]
fn heartbeat_silence_is_zero_when_the_clock_reads_earlier() {
    let heartbeat = Heartbeat::new(1_000);
    assert_eq!(heartbeat.silence(999), 0);
    assert_eq!(heartbeat.silence(0), 0);
}

#[test]
fn heartbeat_check_probes_up_to_the_timeout() {
    let heartbeat = Heartbeat::new(1_000);
    assert_eq!(heartbeat.check(1_000, 10_000), Verdict::Probe);
    assert_eq!(heartbeat.check(6_000, 10_000), Verdict::Probe);
    assert_eq!(heartbeat.check(11_000, 10_000), Verdict::Probe);
}

#[test]
fn heartbeat_check_times_out_past_the_timeout() {
    let heartbeat = Heartbeat::new(1_000);
    assert_eq!(heartbeat.check(11_001, 10_000), Verdict::TimedOut);
    assert_eq!(heartbeat.check(u64::MAX, 10_000), Verdict::TimedOut);
}

#[test]
fn heartbeat_check_with_zero_timeout() {
    let heartbeat = Heartbeat::new(5);
    assert_eq!(heartbeat.check(5, 0), Verdict::Probe);
    assert_eq!(heartbeat.check(6, 0), Verdict::TimedOut);
}

#[test]
fn heartbeat_check_leaves_the_record_alone() {
    let heartbeat = Heartbeat::new(7);
    let _ = heartbeat.check(1_000_000, 10);
    assert_eq!(heartbeat.last_alive(), 7);
}
