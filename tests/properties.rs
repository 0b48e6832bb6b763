use nlf::check::{decide, Decision};
use nlf::content::{contains_crlf, last_is_lf, CR, LF};
use nlf::outcome::{Outcome, EXIT_FAILURE, EXIT_PLEASE_FIX, EXIT_SUCCESS};

fn apply(content: &[u8], decision: &Decision) -> Vec<u8> {
    let mut after = content.to_vec();
    after.extend(decision.bytes_to_append());
    after
}

#[test]
fn fix_appends_exactly_one_line_feed_then_settles() {
    for content in [&b"a\nb"[..], b"x", b"line one\nline two", "caf\u{e9}".as_bytes()] {
        let first = decide(true, content, false);
        assert_eq!(first, Decision::AppendNewline);
        let after = apply(content, &first);
        let mut expected = content.to_vec();
        expected.push(b'\n');
        assert_eq!(after, expected);
        for check_only in [false, true] {
            let second = decide(true, &after, check_only);
            assert_eq!(second, Decision::Done(Outcome::AlreadyValid));
            assert_eq!(apply(&after, &second), after);
        }
    }
}

#[test]
fn fix_after_trailing_carriage_return_creates_crlf() {
    let first = decide(true, b"a\r", false);
    assert_eq!(first, Decision::AppendNewline);
    let after = apply(b"a\r", &first);
    assert_eq!(after, b"a\r\n".to_vec());
    let second = decide(true, &after, false);
    assert_eq!(second, Decision::Done(Outcome::ContainsCrlf));
    assert!(second.bytes_to_append().is_empty());
}

#[test]
fn content_ending_in_line_feed_is_never_written() {
    for content in [&b"\n"[..], b"a\nb\n", b"a\r\n", &[0xffu8, b'\n'][..]] {
        for check_only in [false, true] {
            let d = decide(true, content, check_only);
            assert!(d.bytes_to_append().is_empty());
        }
    }
    assert_eq!(decide(true, b"\n", true), Decision::Done(Outcome::AlreadyValid));
}

#[test]
fn empty_file_is_valid_in_both_modes() {
    for check_only in [false, true] {
        let d = decide(true, b"", check_only);
        assert_eq!(d, Decision::Done(Outcome::AlreadyValid));
        assert!(d.bytes_to_append().is_empty());
    }
    assert_eq!(Outcome::AlreadyValid.exit_code(), EXIT_SUCCESS);
}

#[test]
fn crlf_anywhere_is_rejected() {
    for content in [&b"\r\n"[..], b"\r\nabc", b"abc\r\n", b"a\nb\r\nc"] {
        for check_only in [false, true] {
            let d = decide(true, content, check_only);
            assert_eq!(d, Decision::Done(Outcome::ContainsCrlf));
        }
    }
    assert_eq!(Outcome::ContainsCrlf.exit_code(), EXIT_FAILURE);
    // A lone carriage return is not a CRLF pair.
    assert_eq!(decide(true, b"a\rb", true), Decision::Done(Outcome::NeedsFix));
}

#[test]
fn utf8_check_comes_before_crlf_check() {
    assert_eq!(decide(true, &[0xb1u8, b'\r', b'\n'], false), Decision::Done(Outcome::NotUtf8));
}

#[test]
fn non_utf8_content_is_rejected() {
    let cases: [&[u8]; 5] = [
        &[0xb1, 0xc7],
        &[0xc0, 0x80],
        &[0xed, 0xa0, 0x80],
        &[0xf4, 0x90, 0x80, 0x80],
        &[b'a', 0xe2, 0x82],
    ];
    for content in cases {
        for check_only in [false, true] {
            assert_eq!(decide(true, content, check_only), Decision::Done(Outcome::NotUtf8));
        }
    }
    assert_eq!(Outcome::NotUtf8.exit_code(), EXIT_FAILURE);
}

#[test]
fn multibyte_utf8_is_accepted() {
    assert_eq!(decide(true, "\u{20ac}\u{1f600}\n".as_bytes(), false), Decision::Done(Outcome::AlreadyValid));
    assert_eq!(decide(true, "\u{4e2d}".as_bytes(), true), Decision::Done(Outcome::NeedsFix));
}

#[test]
fn check_only_is_stable() {
    let content = b"a\nb";
    let first = decide(true, content, true);
    assert_eq!(first, Decision::Done(Outcome::NeedsFix));
    let after = apply(content, &first);
    assert_eq!(after, content.to_vec());
    let second = decide(true, &after, true);
    assert_eq!(second, first);
    assert_eq!(Outcome::NeedsFix.exit_code(), EXIT_PLEASE_FIX);
}

#[test]
fn non_regular_file_is_rejected_before_reading() {
    for content in [&b""[..], b"a", b"a\n", &[0xb1u8][..]] {
        assert_eq!(decide(false, content, false), Decision::Done(Outcome::NotRegularFile));
    }
    assert_eq!(Outcome::NotRegularFile.exit_code(), EXIT_FAILURE);
}

#[test]
fn exit_codes() {
    assert_eq!(Outcome::Fixed.exit_code(), 0);
    assert_eq!(Outcome::AlreadyValid.exit_code(), 0);
    assert_eq!(Outcome::NeedsFix.exit_code(), 3);
    assert_eq!(Outcome::NotRegularFile.exit_code(), 1);
}

#[test]
fn content_scans() {
    assert!(contains_crlf(&[CR, LF]));
    assert!(!contains_crlf(&[LF, CR]));
    assert!(!contains_crlf(&[CR]));
    assert!(!contains_crlf(&[]));
    assert!(last_is_lf(&[b'a', LF]));
    assert!(!last_is_lf(&[LF, b'a']));
    assert!(!last_is_lf(&[]));
}

#[test]
fn bytes_to_append_is_one_line_feed() {
    assert_eq!(Decision::AppendNewline.bytes_to_append(), vec![b'\n']);
    assert!(Decision::Done(Outcome::NeedsFix).bytes_to_append().is_empty());
}
