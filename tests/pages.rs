use tunebot::pages::{
    clamp_page, format_duration, nav_controls, page_bounds, page_count, parse_page_id,
    queue_page_text, TRACKS_PER_PAGE,
};
use tunebot::playback::{QueuedTrack, TrackLength};

fn entry(n: usize) -> QueuedTrack {
    QueuedTrack { url: format!("u{}", n), title: Some(format!("t{}", n)), length: None }
}

#[test]
fn twelve_items_make_pages_of_five_five_two() {
    assert_eq!(TRACKS_PER_PAGE, 5);
    let n_pages = page_count(12);
    assert_eq!(n_pages, 3);
    let sizes: Vec<usize> = (0..n_pages)
        .map(|p| {
            let (a, b) = page_bounds(12, p);
            b - a
        })
        .collect();
    assert_eq!(sizes, vec![5, 5, 2]);
    assert_eq!(page_bounds(12, 3), (12, 12));
    assert_eq!(page_bounds(12, usize::MAX), (12, 12));
}

#[test]
fn page_counts() {
    assert_eq!(page_count(0), 0);
    assert_eq!(page_count(1), 1);
    assert_eq!(page_count(5), 1);
    assert_eq!(page_count(6), 2);
    assert_eq!(page_count(usize::MAX), usize::MAX / 5);
    assert_eq!(page_count(usize::MAX - 1), (usize::MAX - 1) / 5 + 1);
}

#[test]
fn controls_are_disabled_at_the_ends() {
    let first = nav_controls(0, 3);
    assert!(first.previous_disabled);
    assert!(!first.next_disabled);
    assert_eq!(first.previous_id, "page:-1");
    assert_eq!(first.refresh_id, "page:0");
    assert_eq!(first.next_id, "page:1");
    let middle = nav_controls(1, 3);
    assert!(!middle.previous_disabled);
    assert!(!middle.next_disabled);
    let last = nav_controls(2, 3);
    assert!(!last.previous_disabled);
    assert!(last.next_disabled);
    assert_eq!(last.previous_id, "page:1");
    assert_eq!(last.next_id, "page:3");
    let none = nav_controls(0, 0);
    assert!(none.previous_disabled);
    assert!(none.next_disabled);
}

#[test]
fn requested_pages_are_clamped() {
    assert_eq!(clamp_page(7, 3), 2);
    assert_eq!(clamp_page(1, 3), 1);
    assert_eq!(clamp_page(4, 0), 0);
}

#[test]
fn page_ids_are_read() {
    assert_eq!(parse_page_id("page:3"), Some(3));
    assert_eq!(parse_page_id("page:-1"), Some(0));
    assert_eq!(parse_page_id("page:+12"), Some(12));
    assert_eq!(parse_page_id("page:page:2"), Some(2));
    assert_eq!(parse_page_id("page:"), Some(0));
    assert_eq!(parse_page_id("page:99999999999999999999999"), Some(0));
    assert_eq!(parse_page_id("other:1"), None);
    assert_eq!(parse_page_id(""), None);
}

#[test]
fn durations_are_formatted() {
    assert_eq!(format_duration(0), "00:00");
    assert_eq!(format_duration(65), "01:05");
    assert_eq!(format_duration(3725), "01:02:05");
    assert_eq!(format_duration(360000), "100:00:00");
}

#[test]
fn empty_queue_text() {
    assert_eq!(queue_page_text(&[], 0), "There are no tracks in the queue.\n\n");
}

#[test]
fn queue_text_lists_one_page() {
    let mut entries: Vec<QueuedTrack> = (0..12).map(entry).collect();
    entries[10].title = None;
    entries[11].length = Some(TrackLength { secs: 3725, nanos: 0 });
    let text = queue_page_text(&entries, 2);
    assert_eq!(text, "* [Unknown](u10)\n* [t11](u11) (01:02:05)\n\npage 3/3");
    let first = queue_page_text(&entries, 0);
    assert_eq!(first.lines().filter(|l| l.starts_with("* [")).count(), 5);
    assert!(first.ends_with("page 1/3"));
    let short = queue_page_text(&entries[..2], 0);
    assert_eq!(short, "* [t0](u0)\n* [t1](u1)\n\n");
}

#[test]
fn control_ids_lead_to_intended_pages() {
    let n_pages = page_count(12);
    let first = nav_controls(0, n_pages);
    assert_eq!(clamp_page(parse_page_id(&first.previous_id).unwrap(), n_pages), 0);
    assert_eq!(clamp_page(parse_page_id(&first.next_id).unwrap(), n_pages), 1);
    let last = nav_controls(2, n_pages);
    assert_eq!(clamp_page(parse_page_id(&last.previous_id).unwrap(), n_pages), 1);
    assert_eq!(clamp_page(parse_page_id(&last.refresh_id).unwrap(), n_pages), 2);
    assert_eq!(clamp_page(parse_page_id(&last.next_id).unwrap(), n_pages), 2);
}
