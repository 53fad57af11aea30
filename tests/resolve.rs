use tunebot::resolve::{
    build_playlist_url, failure_from, metadata_failure, output_lines, resolve_outcome,
    resolver_query, search_query, MetadataFailure, ResolveError, TrackDescriptor,
};

fn descriptor(url: &str) -> TrackDescriptor {
    TrackDescriptor {
        url: Some(url.to_string()),
        original_url: None,
        title: "A title".to_string(),
        channel: "A channel".to_string(),
        playlist: None,
        playlist_id: None,
        duration_string: "3:21".to_string(),
        thumbnail: None,
    }
}

#[test]
fn test_get_tracks() {
    let urls = [
        "https://www.youtube.com/playlist?list=PLFxxhcEeloYa1OlnWD6UgxlVQKJH5i_0p",
        "https://music.youtube.com/watch?v=RO75ZzqUOJw",
        "https://www.youtube.com/watch?v=qVHyl0P_P-M",
        "https://www.youtube.com/watch?v=34CZjsEI1yU",
    ];
    for url in urls.iter() {
        println!("url: {:?}", url);
        assert_eq!(resolver_query(url), url.to_string());
        let tracks = resolve_outcome(vec![descriptor(url)], b"").unwrap();
        assert!(!tracks.is_empty());
    }
}

#[test]
fn test_premium_tracks() {
    let urls = ["https://www.youtube.com/watch?v=QgMZRmxQ0Dc"];
    for url in urls.iter() {
        println!("url: {:?}", url);
        let stderr = b"ERROR: [youtube] QgMZRmxQ0Dc: This video is only available to Music Premium members\n";
        let tracks = resolve_outcome(vec![], stderr);
        assert!(tracks.is_err());
        assert!(tracks
            .err()
            .unwrap()
            .message()
            .contains("This video is only available to Music Premium members"));
    }
}

#[test]
fn test_playlist_does_not_exist_tracks() {
    let urls = ["https://www.youtube.com/playlist?list=PLox0oG0uy8Lc1IaIfGyrvtuRItuEyJiyG"];
    for url in urls.iter() {
        println!("url: {:?}", url);
        let stderr = b"ERROR: [youtube:tab] PLox0oG0uy8Lc1IaIfGyrvtuRItuEyJiyG: YouTube said: The playlist does not exist.\n";
        let tracks = resolve_outcome(vec![], stderr);
        assert!(tracks.is_err());
        assert!(tracks
            .err()
            .unwrap()
            .message()
            .contains("YouTube said: The playlist does not exist."));
    }
}

#[test]
fn premium_notice_is_not_reported_as_no_results() {
    let err = failure_from(b"blah This video is only available to Music Premium members blah");
    assert!(matches!(err, ResolveError::PremiumOnly));
}

#[test]
fn premium_notice_wins_over_missing_playlist() {
    let err = failure_from(
        b"YouTube said: The playlist does not exist.\nThis video is only available to Music Premium members",
    );
    assert!(matches!(err, ResolveError::PremiumOnly));
}

#[test]
fn unknown_failure_keeps_diagnostic_text() {
    match failure_from(b"ERROR: something else") {
        ResolveError::NoResults { diagnostic } => assert_eq!(diagnostic, "ERROR: something else"),
        other => panic!("unexpected {:?}", other),
    }
    assert_eq!(failure_from(b"").message(), "No tracks found");
}

#[test]
fn diagnostic_that_is_not_text_gives_no_results() {
    let mut bytes = b"This video is only available to Music Premium members".to_vec();
    bytes.push(0xff);
    match failure_from(&bytes) {
        ResolveError::NoResults { diagnostic } => assert_eq!(diagnostic, ""),
        other => panic!("unexpected {:?}", other),
    }
}

#[test]
fn keyword_queries_become_searches() {
    assert_eq!(resolver_query("never gonna give you up"), "ytsearch:never gonna give you up");
    assert_eq!(resolver_query(""), "ytsearch:");
    assert_eq!(search_query("abc", true), "abc");
    assert_eq!(search_query("abc", false), "ytsearch:abc");
}

#[test]
fn playlist_url_is_built_from_id() {
    assert_eq!(build_playlist_url("PL123"), "https://www.youtube.com/playlist?list=PL123");
}

#[test]
fn output_is_split_into_lines() {
    let lines = output_lines(b"{\"a\":1}\r\n{\"b\":2}\nlast");
    assert_eq!(lines, vec![b"{\"a\":1}".to_vec(), b"{\"b\":2}".to_vec(), b"last".to_vec()]);
    let lines = output_lines(b"one\n\ntwo\n");
    assert_eq!(lines, vec![b"one".to_vec(), b"".to_vec(), b"two".to_vec()]);
    assert!(output_lines(b"").is_empty());
    let lines = output_lines(b"end\r");
    assert_eq!(lines, vec![b"end\r".to_vec()]);
}

#[test]
fn output_skips_lines_that_are_not_text() {
    let lines = output_lines(b"good\n\xff\xfe\nafter\n");
    assert_eq!(lines, vec![b"good".to_vec(), b"after".to_vec()]);
    let lines = output_lines(b"\xff\n{\"title\":\"x\"}");
    assert_eq!(lines, vec![b"{\"title\":\"x\"}".to_vec()]);
}

#[test]
fn premium_phrase_alone_gives_premium_error() {
    let err = failure_from(b"ERROR: only for Music Premium members, sorry");
    assert!(matches!(err, ResolveError::PremiumOnly));
    let out = resolve_outcome(vec![], b"Music Premium members");
    assert!(matches!(out, Err(ResolveError::PremiumOnly)));
    assert_eq!(
        out.err().unwrap().message(),
        "This video is only available to Music Premium members"
    );
}

#[test]
fn bot_check_ends_play_request() {
    assert!(matches!(
        metadata_failure("ERROR: [youtube] x: Sign in to confirm you\u{2019}re not a bot. Use --cookies"),
        MetadataFailure::FlaggedAsBot
    ));
    assert!(matches!(metadata_failure("HTTP Error 403: Forbidden"), MetadataFailure::Skip));
    assert!(matches!(metadata_failure("Sign in to confirm you're not a bot."), MetadataFailure::Skip));
    assert!(matches!(metadata_failure(""), MetadataFailure::Skip));
}

#[test]
fn found_descriptors_are_returned_in_order() {
    let found = vec![descriptor("https://a.example/1"), descriptor("https://a.example/2")];
    let out = resolve_outcome(found, b"ignored").unwrap();
    assert_eq!(out.len(), 2);
    assert_eq!(out[1].url.as_deref(), Some("https://a.example/2"));
}

#[test]
fn source_url_prefers_original() {
    let mut d = descriptor("https://listed.example/");
    assert_eq!(d.source_url().as_deref(), Some("https://listed.example/"));
    d.original_url = Some("https://original.example/".to_string());
    assert_eq!(d.source_url().as_deref(), Some("https://original.example/"));
    d.original_url = None;
    d.url = None;
    assert_eq!(d.source_url(), None);
}
