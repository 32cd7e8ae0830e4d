use music_player::activity::ActivityState;
use music_player::discord::{
    DiscordPresence, CLOCK_OUT_OF_RANGE, COUNTDOWN_OUT_OF_RANGE, DEFAULT_CLIENT_ID,
};

fn playing<'a>() -> ActivityState<'a> {
    ActivityState {
        title: "So What",
        album: "Kind of Blue",
        duration_seconds: 180,
        elapsed_seconds: 30,
        is_playing: true,
    }
}

#[test]
fn new_session_is_disconnected() {
    let session = DiscordPresence::new();
    assert!(!session.is_connected());
}

#[test]
fn sessions_are_independent() {
    let mut first = DiscordPresence::new();
    let second = DiscordPresence::new();
    first.disconnect();
    assert!(!first.is_connected());
    assert!(!second.is_connected());
}

#[test]
fn constants_are_as_documented() {
    assert_eq!(DEFAULT_CLIENT_ID, "1456601764731293911");
    assert_eq!(COUNTDOWN_OUT_OF_RANGE, "countdown out of range");
    assert_eq!(CLOCK_OUT_OF_RANGE, "system clock out of range");
}

#[test]
fn disconnect_twice_is_a_no_op() {
    let mut session = DiscordPresence::new();
    session.disconnect();
    assert!(!session.is_connected());
    session.disconnect();
    assert!(!session.is_connected());
}

#[test]
fn update_on_a_disconnected_session_succeeds() {
    let mut session = DiscordPresence::new();
    assert_eq!(session.update_presence("So What", "Miles Davis", "Kind of Blue", 180, 30, true), Ok(()));
    assert!(!session.is_connected());
    assert_eq!(session.update_presence("", "", "", 0, 0, false), Ok(()));
    assert!(!session.is_connected());
}

#[test]
fn update_on_a_disconnected_session_ignores_numbers_that_do_not_fit() {
    let mut session = DiscordPresence::new();
    assert_eq!(session.update_presence("t", "a", "b", i64::MAX, i64::MIN, true), Ok(()));
    assert!(!session.is_connected());
}

#[test]
fn publish_on_a_disconnected_session_succeeds() {
    let mut session = DiscordPresence::new();
    assert_eq!(session.publish_at(&playing(), 1_700_000_000), Ok(()));
    let unwritable = ActivityState {
        title: "t",
        album: "b",
        duration_seconds: 180,
        elapsed_seconds: i64::MIN,
        is_playing: true,
    };
    assert_eq!(session.publish_at(&unwritable, 1_700_000_000), Ok(()));
    assert!(!session.is_connected());
}

#[test]
fn clear_on_a_disconnected_session_succeeds() {
    let mut session = DiscordPresence::new();
    assert_eq!(session.clear_presence(), Ok(()));
    assert!(!session.is_connected());
}

#[test]
fn connect_says_what_became_of_the_session() {
    let mut session = DiscordPresence::new();
    match session.connect() {
        Ok(()) => assert!(session.is_connected()),
        Err(message) => {
            assert!(!session.is_connected());
            assert!(
                message.starts_with("Failed to connect to Discord: ")
                    || message.starts_with("Failed to create Discord client: ")
            );
        }
    }
    session.disconnect();
    assert!(!session.is_connected());
}

#[test]
fn reconnect_says_what_became_of_the_session() {
    let mut session = DiscordPresence::new();
    let outcome = session.reconnect();
    assert_eq!(outcome.is_ok(), session.is_connected());
    if let Err(message) = outcome {
        assert!(
            message.starts_with("Failed to connect to Discord: ")
                || message.starts_with("Failed to create Discord client: ")
        );
    }
    session.disconnect();
    assert!(!session.is_connected());
}

#[test]
fn activity_errors_leave_the_connection_as_it_was() {
    let mut session = DiscordPresence::new();
    let connected = session.connect().is_ok();
    let shown = session.update_presence("So What", "Miles Davis", "Kind of Blue", 180, 30, true);
    assert_eq!(session.is_connected(), connected);
    if let Err(message) = shown {
        assert!(connected);
        assert!(message.starts_with("Failed to set activity: "));
        assert!(message.contains("activity"));
    }
    let cleared = session.clear_presence();
    assert_eq!(session.is_connected(), connected);
    if let Err(message) = cleared {
        assert!(connected);
        assert!(message.starts_with("Failed to clear activity: "));
    }
    session.disconnect();
    assert!(!session.is_connected());
}

fn may_cross_threads<T: Send>(_: &T) {}

#[test]
fn session_can_be_shared_behind_a_lock() {
    may_cross_threads(&DiscordPresence::new());
    let shared = std::sync::Arc::new(std::sync::Mutex::new(DiscordPresence::new()));
    let other = std::sync::Arc::clone(&shared);
    assert_eq!(other.lock().unwrap().clear_presence(), Ok(()));
    assert_eq!(
        other.lock().unwrap().update_presence("So What", "Miles Davis", "Kind of Blue", 180, 30, true),
        Ok(())
    );
    shared.lock().unwrap().disconnect();
    assert!(!shared.lock().unwrap().is_connected());
}
