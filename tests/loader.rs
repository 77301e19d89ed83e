use n_player::loader::{
    artist_from_format, duration_from_format, is_audio_extension, loader_thread, track_messages,
    FormatInfo, TagInfo,
};
use n_player::track::LoaderMessage;

fn format(time_base: Option<(u32, u32)>, start_ts: u64, n_frames: Option<u64>) -> FormatInfo {
    FormatInfo { time_base, start_ts, n_frames, tags: None, cover: None }
}

fn tag(is_artist: bool, text: Option<&str>) -> TagInfo {
    TagInfo { is_artist, text: text.map(|t| t.to_string()) }
}

#[test]
fn duration_in_whole_seconds() {
    let f = format(Some((1, 44_100)), 0, Some(44_100 * 200));
    assert_eq!(duration_from_format(&f), Some(200));
    let f = format(Some((1, 44_100)), 44_100, Some(44_100 * 2 + 100));
    assert_eq!(duration_from_format(&f), Some(3));
    let f = format(Some((1, 1000)), 0, Some(999));
    assert_eq!(duration_from_format(&f), Some(0));
}

#[test]
fn duration_needs_time_base_and_frames() {
    assert_eq!(duration_from_format(&format(None, 0, Some(10))), None);
    assert_eq!(duration_from_format(&format(Some((1, 10)), 0, None)), None);
    assert_eq!(duration_from_format(&format(Some((0, 10)), 0, Some(10))), None);
    assert_eq!(duration_from_format(&format(Some((1, 0)), 0, Some(10))), None);
    assert_eq!(duration_from_format(&format(Some((1, 10)), u64::MAX, Some(1))), None);
}

#[test]
fn artist_is_first_artist_tag() {
    let mut f = format(None, 0, None);
    f.tags = Some(vec![
        tag(false, Some("Album")),
        tag(true, Some("Singer")),
        tag(true, Some("Other")),
    ]);
    assert_eq!(artist_from_format(&f), Some("Singer".to_string()));
}

#[test]
fn artist_tag_without_text_gives_placeholder() {
    let mut f = format(None, 0, None);
    f.tags = Some(vec![tag(true, None), tag(true, Some("Other"))]);
    assert_eq!(artist_from_format(&f), Some("ARTIST".to_string()));
}

#[test]
fn no_artist_tag_gives_none() {
    let mut f = format(None, 0, None);
    assert_eq!(artist_from_format(&f), None);
    f.tags = Some(vec![tag(false, Some("Album"))]);
    assert_eq!(artist_from_format(&f), None);
    f.tags = Some(vec![]);
    assert_eq!(artist_from_format(&f), None);
}

#[test]
fn track_messages_in_order() {
    let mut f = format(Some((1, 10)), 0, Some(50));
    f.tags = Some(vec![tag(true, Some("Singer"))]);
    f.cover = Some(vec![]);
    let m = track_messages(4, &Some(f));
    assert_eq!(m.len(), 3);
    assert!(matches!(m[0], LoaderMessage::Duration(4, 5)));
    assert!(matches!(&m[1], LoaderMessage::Artist(4, a) if a == "Singer"));
    assert!(matches!(&m[2], LoaderMessage::Image(4, c) if c.is_empty()));
    assert!(track_messages(0, &None).is_empty());
}

#[test]
fn missing_facts_are_skipped() {
    let f = format(None, 0, Some(50));
    assert!(track_messages(1, &Some(f)).is_empty());
    let mut f = format(None, 0, None);
    f.tags = Some(vec![tag(true, Some("X"))]);
    let m = track_messages(2, &Some(f));
    assert_eq!(m.len(), 1);
    assert!(matches!(&m[0], LoaderMessage::Artist(2, a) if a == "X"));
}

#[test]
fn loader_goes_file_by_file() {
    let a = format(Some((1, 1)), 0, Some(7));
    let c = format(Some((1, 1)), 0, Some(9));
    let m = loader_thread(&vec![Some(a), None, Some(c)]);
    assert_eq!(m.len(), 2);
    assert!(matches!(m[0], LoaderMessage::Duration(0, 7)));
    assert!(matches!(m[1], LoaderMessage::Duration(2, 9)));
    assert!(loader_thread(&vec![]).is_empty());
}

#[test]
fn audio_extensions_are_recognised() {
    for ext in ["mp3", "flac", "ogg", "wav", "opus", "aiff"] {
        assert!(is_audio_extension(ext));
    }
    for ext in ["txt", "jpg", "", "FLAC", "mp"] {
        assert!(!is_audio_extension(ext));
    }
}
