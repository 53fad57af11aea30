use tunebot::notices::{
    added_notice, host_label, playlist_added_text, playlist_loading_text, track_notice,
    AddedNotice, AddedTrack,
};
use tunebot::resolve::TrackDescriptor;

fn added(url: &str) -> AddedTrack {
    AddedTrack {
        url: url.to_string(),
        title: Some("Song".to_string()),
        duration_string: "3:33".to_string(),
        channel: "Band".to_string(),
        thumbnail: Some("https://img.example/t.jpg".to_string()),
    }
}

fn listed(playlist: Option<&str>, id: Option<&str>) -> TrackDescriptor {
    TrackDescriptor {
        url: Some("https://www.youtube.com/watch?v=x".to_string()),
        original_url: None,
        title: "Song".to_string(),
        channel: "Band".to_string(),
        playlist: playlist.map(|s| s.to_string()),
        playlist_id: id.map(|s| s.to_string()),
        duration_string: "3:33".to_string(),
        thumbnail: None,
    }
}

#[test]
fn host_labels() {
    assert_eq!(host_label("https://www.youtube.com/watch?v=x").as_deref(), Some("youtube.com"));
    assert_eq!(host_label("https://www.www.example.org/").as_deref(), Some("example.org"));
    assert_eq!(host_label("https://music.youtube.com/watch").as_deref(), Some("music.youtube.com"));
    assert_eq!(host_label("mailto:someone@example.com").as_deref(), Some(""));
    assert_eq!(host_label("not a url"), None);
}

#[test]
fn single_track_notice() {
    let n = track_notice(&added("https://www.youtube.com/watch?v=abc"));
    assert_eq!(n.title, "Song");
    assert_eq!(n.footer_text, "Streaming from youtube.com");
    assert_eq!(n.footer_icon.as_deref(), Some("https://www.google.com/s2/favicons?domain=youtube.com"));
    assert_eq!(n.duration, "3:33");
    assert_eq!(n.channel, "Band");
    assert_eq!(n.thumbnail.as_deref(), Some("https://img.example/t.jpg"));
    let mut t = added("no url here");
    t.title = None;
    let n = track_notice(&t);
    assert_eq!(n.title, "Unknown");
    assert_eq!(n.footer_text, "");
    assert_eq!(n.footer_icon, None);
}

#[test]
fn playlist_texts() {
    let first = listed(Some("Mix"), Some("PL1"));
    assert_eq!(
        playlist_loading_text(&first),
        "Adding playlist [Mix](https://www.youtube.com/playlist?list=PL1)"
    );
    assert_eq!(
        playlist_added_text(&first, 12),
        "Adding playlist: [Mix](https://www.youtube.com/playlist?list=PL1)\nAdded 12 tracks to the queue.\n"
    );
    let unknown = listed(None, None);
    assert_eq!(
        playlist_loading_text(&unknown),
        "Adding playlist [Unknown](https://www.youtube.com/playlist?list=Unknown)"
    );
}

#[test]
fn notice_depends_on_number_added() {
    let found = vec![listed(Some("Mix"), Some("PL1"))];
    assert!(matches!(added_notice(&found, &[]), AddedNotice::Nothing));
    match added_notice(&found, &[added("https://www.youtube.com/watch?v=a")]) {
        AddedNotice::Track(n) => assert_eq!(n.footer_text, "Streaming from youtube.com"),
        other => panic!("unexpected {:?}", other),
    }
    match added_notice(&found, &[added("https://a.example/"), added("https://b.example/")]) {
        AddedNotice::Playlist(text) => assert!(text.contains("Added 2 tracks to the queue.")),
        other => panic!("unexpected {:?}", other),
    }
}
