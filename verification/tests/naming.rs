use cursor_manager::timestamp::{archive_date, archive_name, original_session};
use cursor_manager::Timestamp;

#[test]
fn timestamps_have_one_shape() {
    assert!(Timestamp::parse("20240131-120000").is_some());
    assert!(Timestamp::parse("00000000-000000").is_some());
    for text in [
        "",
        "20240131",
        "20240131-12000",
        "20240131-1200000",
        "20240131_120000",
        "2024013a-120000",
        "20240131-12000x",
        "-20240131120000",
        "２０２４０１３１-120000",
    ] {
        assert!(Timestamp::parse(text).is_none(), "{}", text);
    }
}

#[test]
fn timestamp_gives_text_and_date() {
    let stamp = Timestamp::parse("20240131-120059").unwrap();
    assert_eq!(stamp.as_str(), "20240131-120059");
    assert_eq!(stamp.date(), "2024-01-31");
}

#[test]
fn clock_gives_a_timestamp() {
    let now = Timestamp::now().unwrap();
    assert_eq!(now.as_str().len(), 15);
    assert_eq!(Timestamp::parse(now.as_str()), Some(now));
}

#[test]
fn archive_names_join_session_and_time() {
    let stamp = Timestamp::parse("20240131-120000").unwrap();
    assert_eq!(archive_name("alice", &stamp), "alice-20240131-120000");
    assert_eq!(archive_name("a-b-c", &stamp), "a-b-c-20240131-120000");
    assert_eq!(archive_name("", &stamp), "-20240131-120000");
}

#[test]
fn session_is_read_from_the_archive_name() {
    assert_eq!(original_session("alice-20240131-120000"), Some("alice".to_string()));
    assert_eq!(original_session("a-b-c-20240131-120000"), Some("a-b-c".to_string()));
    assert_eq!(original_session("-20240131-120000"), Some("".to_string()));
    assert_eq!(original_session("été-20240131-120000"), Some("été".to_string()));
    assert_eq!(original_session("alice-20240131"), None);
    assert_eq!(original_session("alice"), None);
    assert_eq!(original_session("20240131-120000"), None);
    assert_eq!(original_session("alice_20240131-120000"), None);
    assert_eq!(original_session("alice-2024013x-120000"), None);
    assert_eq!(original_session(""), None);
}

#[test]
fn day_is_read_from_the_archive_name() {
    assert_eq!(archive_date("alice-20240131-120000"), Some("2024-01-31".to_string()));
    assert_eq!(archive_date("alice"), None);
    assert_eq!(archive_date("alice-20240131"), None);
}
