use photometer::parse_utils::{
    u64_to_string, parse_u64, str_between, ends_with, before_first, find_from, msecs, into_timespec,
    add_days, time_before, SECS_IN_DAY,
};
use photometer::types::Timespec;

#[test]
fn decimal_roundtrip_on_samples() {
    for n in [0u64, 7, 10, 42, 1000, 123456789, u64::MAX] {
        let text = u64_to_string(n);
        assert_eq!(text, n.to_string());
        assert_eq!(parse_u64(&text), Some(n));
    }
}

#[test]
fn parse_u64_accepts_what_from_str_accepts() {
    assert_eq!(parse_u64("+5"), Some(5));
    assert_eq!(parse_u64("007"), Some(7));
    assert_eq!(parse_u64(""), None);
    assert_eq!(parse_u64("+"), None);
    assert_eq!(parse_u64("-1"), None);
    assert_eq!(parse_u64("12a"), None);
    assert_eq!(parse_u64("18446744073709551615"), Some(u64::MAX));
    assert_eq!(parse_u64("18446744073709551616"), None);
}

#[test]
fn str_between_finds_the_text_between_marks() {
    assert_eq!(str_between("Rows matched: 1  Changed: 1  Warnings: 0", "matched: ", " "), Some("1".to_string()));
    assert_eq!(str_between("name=\"upload_img\"; filename=\"a.jpg\"", "name=\"", "\""), Some("upload_img".to_string()));
    assert_eq!(str_between("no marks here", "matched: ", " "), None);
    assert_eq!(str_between("matched: 12", "matched: ", " "), None);
    assert_eq!(str_between("ab", "a", "b"), Some(String::new()));
}

#[test]
fn find_and_split_helpers() {
    assert_eq!(find_from("abcabc", "bc", 0), Some(1));
    assert_eq!(find_from("abcabc", "bc", 2), Some(4));
    assert_eq!(find_from("abcabc", "bc", 5), None);
    assert_eq!(find_from("abc", "", 3), Some(3));
    assert!(ends_with("photo.JPG", ".JPG"));
    assert!(!ends_with("jpg", ".jpg"));
    assert_eq!(before_first("42.jpg", "."), "42");
    assert_eq!(before_first("42", "."), "42");
    assert_eq!(before_first("1.2.3", "."), "1");
}

#[test]
fn milliseconds_roundtrip() {
    for ms in [0u64, 1, 999, 1000, 1426961100123] {
        let t = into_timespec(ms);
        assert_eq!(msecs(&t), ms);
    }
    let t = Timespec { sec: 2, nsec: 345_678_901 };
    assert_eq!(msecs(&t), 2345);
}

#[test]
fn days_and_order_of_times() {
    let t = Timespec { sec: 1000, nsec: 5 };
    let later = add_days(&t, 2);
    assert_eq!(later.sec, 1000 + 2 * SECS_IN_DAY);
    assert_eq!(later.nsec, 5);
    assert!(time_before(&t, &later));
    assert!(!time_before(&later, &t));
    assert!(time_before(&Timespec { sec: 1, nsec: 1 }, &Timespec { sec: 1, nsec: 2 }));
    assert!(!time_before(&t, &t));
}
