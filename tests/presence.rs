use tunebot::commands::InteractionCommand;
use tunebot::presence::{delete_request, should_leave};

#[test]
fn leaves_only_when_alone() {
    assert!(should_leave(Some(1)));
    assert!(!should_leave(Some(0)));
    assert!(!should_leave(Some(2)));
    assert!(!should_leave(Some(5)));
    assert!(!should_leave(None));
}

#[test]
fn delete_by_non_admin_does_nothing() {
    assert_eq!(delete_request(1, 2, "!delete 5"), None);
    assert_eq!(delete_request(1, 2, "!delete"), None);
}

#[test]
fn delete_counts() {
    assert_eq!(delete_request(9, 9, "!delete 5"), Some(5));
    assert_eq!(delete_request(9, 9, "!delete"), Some(1));
    assert_eq!(delete_request(9, 9, "!delete abc"), Some(1));
    assert_eq!(delete_request(9, 9, "!delete 100"), Some(100));
    assert_eq!(delete_request(9, 9, "!delete 101"), None);
    assert_eq!(delete_request(9, 9, "!delete 0"), None);
    assert_eq!(delete_request(9, 9, "!delete 70000"), Some(1));
    assert_eq!(delete_request(9, 9, "!delete 3 "), Some(1));
}

#[test]
fn commands_are_sorted_by_name() {
    assert!(matches!(
        InteractionCommand::from_parts("play", Some("song".to_string())),
        InteractionCommand::Play(q) if q == "song"
    ));
    assert!(matches!(InteractionCommand::from_parts("play", None), InteractionCommand::NotImplemented));
    assert!(matches!(InteractionCommand::from_parts("stop", None), InteractionCommand::Stop));
    assert!(matches!(InteractionCommand::from_parts("pause", None), InteractionCommand::Pause));
    assert!(matches!(InteractionCommand::from_parts("skip", None), InteractionCommand::Skip));
    assert!(matches!(InteractionCommand::from_parts("loop", None), InteractionCommand::Loop));
    assert!(matches!(InteractionCommand::from_parts("resume", None), InteractionCommand::Resume));
    assert!(matches!(InteractionCommand::from_parts("leave", None), InteractionCommand::Leave));
    assert!(matches!(InteractionCommand::from_parts("join", None), InteractionCommand::Join));
    assert!(matches!(InteractionCommand::from_parts("queue", None), InteractionCommand::Queue));
    assert!(matches!(InteractionCommand::from_parts("Play", None), InteractionCommand::NotImplemented));
    assert!(matches!(InteractionCommand::from_parts("delete", None), InteractionCommand::NotImplemented));
}
