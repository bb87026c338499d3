use coldsonic::decimal::{decimal_string, signed_decimal_string};
use coldsonic::screen::artists::{album_count, Artist};
use coldsonic::screen::{fmt_duration, SongPlaying};

fn artist(id: &str, cover: Option<&str>, count: Option<i64>) -> Artist {
    Artist {
        id: id.to_string(),
        name: format!("name of {id}"),
        cover_art: cover.map(|c| c.to_string()),
        album_count: count,
    }
}

#[test]
fn decimal_string_matches_to_string() {
    for n in [0u64, 1, 9, 10, 11, 99, 100, 101, 12345, 1_000_000, u64::MAX] {
        assert_eq!(decimal_string(n), n.to_string());
    }
}

#[test]
fn signed_decimal_string_matches_to_string() {
    for n in [0i64, 1, -1, 9, -10, 42, -42, 1_000_000, i64::MAX, i64::MIN] {
        assert_eq!(signed_decimal_string(n), n.to_string());
    }
}

#[test]
fn fmt_duration_exact_values() {
    assert_eq!(fmt_duration(0), "00:00");
    assert_eq!(fmt_duration(5), "00:05");
    assert_eq!(fmt_duration(59), "00:59");
    assert_eq!(fmt_duration(60), "01:00");
    assert_eq!(fmt_duration(245), "04:05");
    assert_eq!(fmt_duration(3599), "59:59");
    assert_eq!(fmt_duration(3600), "60:00");
    assert_eq!(fmt_duration(6000), "100:00");
}

#[test]
fn fmt_duration_matches_format() {
    for secs in (0u64..20_000).chain([u64::MAX - 1, u64::MAX]) {
        assert_eq!(fmt_duration(secs), format!("{:02}:{:02}", secs / 60, secs % 60));
    }
}

#[test]
fn fmt_duration_reads_back() {
    for secs in [0u64, 7, 61, 599, 3661, 86_399] {
        let text = fmt_duration(secs);
        let (minutes, seconds) = text.split_once(':').unwrap();
        assert_eq!(seconds.len(), 2);
        let seconds: u64 = seconds.parse().unwrap();
        assert!(seconds < 60);
        assert_eq!(minutes.parse::<u64>().unwrap() * 60 + seconds, secs);
    }
}

#[test]
fn song_progress_text() {
    let song = SongPlaying::new(None, 245, 61);
    assert_eq!(song.progress(), "01:01 / 04:05");
    assert!(song.cover_bytes().is_none());
    let song = SongPlaying::new(Some(vec![1, 2, 3]), 0, 0);
    assert_eq!(song.progress(), "00:00 / 00:00");
    assert_eq!(song.cover_bytes().as_deref(), Some(&[1u8, 2, 3][..]));
}

#[test]
fn album_count_text() {
    assert_eq!(album_count(&artist("a", None, Some(12))), "12");
    assert_eq!(album_count(&artist("a", None, Some(0))), "0");
    assert_eq!(album_count(&artist("a", None, Some(-3))), "-3");
    assert_eq!(album_count(&artist("a", None, None)), "–");
}
