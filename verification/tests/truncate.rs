use witchops::audit::{truncate_output, OUTPUT_TRUNCATE};
use witchops::clip::clip_str;

#[test]
fn truncate_short_output_unchanged() {
    let s = "hello world";
    assert_eq!(truncate_output(s), s);
}

#[test]
fn truncate_long_output_appends_note() {
    let s = "x".repeat(3000);
    let t = truncate_output(&s);
    assert!(t.len() < s.len());
    assert!(t.ends_with("...(输出已截断,共 3000 字符)"), "尾部注释: {t}");
}

#[test]
fn truncate_never_cuts_multibyte_utf8() {
    // Three bytes per character: the limit falls inside one.
    let s = "运维自动化运维自动化".repeat(200);
    assert!(s.len() > OUTPUT_TRUNCATE);
    let t = truncate_output(&s);
    assert!(String::from_utf8(t.clone().into_bytes()).is_ok());
    assert!(t.contains("...(输出已截断"));
}

#[test]
fn truncate_exact_boundary_ok() {
    let s = "y".repeat(OUTPUT_TRUNCATE);
    assert_eq!(truncate_output(&s), s);
}

#[test]
fn truncate_one_byte_over() {
    let s = "y".repeat(2001);
    let expected = format!("{}\n...(输出已截断,共 2001 字符)", "y".repeat(2000));
    assert_eq!(truncate_output(&s), expected);
}

#[test]
fn truncate_backs_off_to_a_whole_character() {
    // 666 characters of three bytes take 1998 bytes; the next one would end at 2001.
    let s = "维".repeat(667);
    let expected = format!("{}\n...(输出已截断,共 667 字符)", "维".repeat(666));
    assert_eq!(truncate_output(&s), expected);
    // Four-byte characters fill the limit exactly.
    let s = "😀".repeat(501);
    let expected = format!("{}\n...(输出已截断,共 501 字符)", "😀".repeat(500));
    assert_eq!(truncate_output(&s), expected);
}

#[test]
fn truncate_empty_output() {
    assert_eq!(truncate_output(""), "");
}

#[test]
fn clip_keeps_the_longest_fitting_prefix() {
    assert_eq!(clip_str("aé维😀", 0), "");
    assert_eq!(clip_str("aé维😀", 1), "a");
    assert_eq!(clip_str("aé维😀", 2), "a");
    assert_eq!(clip_str("aé维😀", 3), "aé");
    assert_eq!(clip_str("aé维😀", 5), "aé");
    assert_eq!(clip_str("aé维😀", 6), "aé维");
    assert_eq!(clip_str("aé维😀", 9), "aé维");
    assert_eq!(clip_str("aé维😀", 10), "aé维😀");
    assert_eq!(clip_str("维", 2), "");
}
