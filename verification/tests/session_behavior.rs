use media_session::actions::{ActionKind, CountingHandler};
use media_session::host::{EventLog, SessionEvent};
use media_session::metadata::Metadata;
use media_session::playback::{PlaybackOp, PlaybackState, RecordingInstance};
use media_session::session::MediaSession;

type TestSession = MediaSession<CountingHandler, RecordingInstance, EventLog>;

const PAGE_URL: &str = "https://example.org/page";

fn fresh_session() -> TestSession {
    TestSession::new(EventLog::new(), String::from(PAGE_URL))
}

fn session_with_instance() -> TestSession {
    let mut session = fresh_session();
    session.register_media_instance(RecordingInstance::new(true));
    session
}

fn metadata(title: &str, artist: &str, album: &str) -> Metadata {
    Metadata {
        title: String::from(title),
        artist: String::from(artist),
        album: String::from(album),
    }
}

fn received_ops(session: &TestSession) -> &Vec<PlaybackOp> {
    &session.media_instance.as_ref().unwrap().received
}

#[test]
fn fresh_session_has_nothing_set() {
    let session = fresh_session();
    assert!(session.get_metadata().is_none());
    assert_eq!(session.get_playback_state(), PlaybackState::NoneState);
    assert!(session.media_instance.is_none());
}

#[test]
fn playback_state_is_freely_settable() {
    let mut session = fresh_session();
    session.set_playback_state(PlaybackState::Playing);
    assert_eq!(session.get_playback_state(), PlaybackState::Playing);
    session.set_playback_state(PlaybackState::Paused);
    assert_eq!(session.get_playback_state(), PlaybackState::Paused);
    session.set_playback_state(PlaybackState::NoneState);
    assert_eq!(session.get_playback_state(), PlaybackState::NoneState);
}

#[test]
fn absent_metadata_candidate_falls_back_to_the_page_url() {
    let mut session = fresh_session();
    session.set_metadata(None);
    let m = session.get_metadata().unwrap();
    assert_eq!(m.title, PAGE_URL);
    assert_eq!(m.artist, "");
    assert_eq!(m.album, "");
    assert_eq!(
        session.host.events,
        vec![SessionEvent::SetMetadata(metadata(PAGE_URL, "", ""))]
    );
}

#[test]
fn explicit_metadata_is_stored_and_announced() {
    let mut session = fresh_session();
    session.set_metadata(Some(metadata("A Title", "An Artist", "An Album")));
    let m = session.get_metadata().unwrap();
    assert_eq!(m.title, "A Title");
    assert_eq!(m.artist, "An Artist");
    assert_eq!(m.album, "An Album");
    assert_eq!(
        session.host.events,
        vec![SessionEvent::SetMetadata(metadata("A Title", "An Artist", "An Album"))]
    );
}

#[test]
fn empty_explicit_title_falls_back_and_blocks_the_automatic_path() {
    let mut session = fresh_session();
    session.set_metadata(Some(metadata("", "An Artist", "An Album")));
    let m = session.get_metadata().unwrap();
    assert_eq!(m.title, PAGE_URL);
    // The stored title became non-empty, so the automatic path is a no-op.
    session.update_title(String::from("From The Player"));
    let m = session.get_metadata().unwrap();
    assert_eq!(m.title, PAGE_URL);
    assert_eq!(m.artist, "An Artist");
    assert_eq!(session.host.events.len(), 1);
}

#[test]
fn automatic_title_update_creates_metadata_when_none_exists() {
    let mut session = fresh_session();
    session.update_title(String::from("From The Player"));
    let m = session.get_metadata().unwrap();
    assert_eq!(m.title, "From The Player");
    assert_eq!(m.artist, "");
    assert_eq!(m.album, "");
    assert_eq!(
        session.host.events,
        vec![SessionEvent::SetMetadata(metadata("From The Player", "", ""))]
    );
}

#[test]
fn automatic_title_update_fills_an_empty_title() {
    // Only an empty page URL can leave an empty title behind.
    let mut session = TestSession::new(EventLog::new(), String::new());
    session.set_metadata(Some(metadata("", "An Artist", "An Album")));
    assert_eq!(session.get_metadata().unwrap().title, "");
    session.update_title(String::from("From The Player"));
    let m = session.get_metadata().unwrap();
    assert_eq!(m.title, "From The Player");
    assert_eq!(m.artist, "An Artist");
    assert_eq!(session.host.events.len(), 2);
}

#[test]
fn automatic_title_update_never_clobbers_a_nonempty_title() {
    let mut session = fresh_session();
    session.set_metadata(Some(metadata("User Title", "", "")));
    session.update_title(String::from("From The Player"));
    assert_eq!(session.get_metadata().unwrap().title, "User Title");
    assert_eq!(session.host.events.len(), 1);
}

#[test]
fn notifications_arrive_in_call_order() {
    let mut session = fresh_session();
    session.set_metadata(Some(metadata("First", "", "")));
    session.set_metadata(Some(metadata("Second", "", "")));
    session.send_event(SessionEvent::PlaybackStateChange(PlaybackState::Playing));
    assert_eq!(
        session.host.events,
        vec![
            SessionEvent::SetMetadata(metadata("First", "", "")),
            SessionEvent::SetMetadata(metadata("Second", "", "")),
            SessionEvent::PlaybackStateChange(PlaybackState::Playing),
        ]
    );
}

#[test]
fn custom_handler_intercepts_the_action() {
    let mut session = session_with_instance();
    session.set_action_handler(ActionKind::Play, Some(CountingHandler::new(true)));
    session.handle_action(ActionKind::Play);
    assert_eq!(session.action_handlers.play.as_ref().unwrap().count(), 1);
    // The built-in play behavior did not run.
    assert!(received_ops(&session).is_empty());
}

#[test]
fn failing_handler_is_swallowed_and_does_not_fall_through() {
    let mut session = session_with_instance();
    session.set_action_handler(ActionKind::Play, Some(CountingHandler::new(false)));
    session.handle_action(ActionKind::Play);
    assert_eq!(session.action_handlers.play.as_ref().unwrap().count(), 1);
    assert!(received_ops(&session).is_empty());
}

#[test]
fn removed_handler_falls_back_to_the_default_behavior() {
    let mut session = session_with_instance();
    session.set_action_handler(ActionKind::Play, Some(CountingHandler::new(true)));
    session.set_action_handler(ActionKind::Play, None);
    session.handle_action(ActionKind::Play);
    assert!(session.action_handlers.play.is_none());
    assert_eq!(*received_ops(&session), vec![PlaybackOp::Play]);
}

#[test]
fn removing_an_absent_handler_is_no_error() {
    let mut session = fresh_session();
    session.set_action_handler(ActionKind::Stop, None);
    assert!(session.action_handlers.stop.is_none());
}

#[test]
fn default_play_and_pause_reach_the_instance() {
    let mut session = session_with_instance();
    session.handle_action(ActionKind::Play);
    session.handle_action(ActionKind::Pause);
    assert_eq!(*received_ops(&session), vec![PlaybackOp::Play, PlaybackOp::Pause]);
}

#[test]
fn seek_backward_without_handler_is_a_no_op() {
    let mut session = session_with_instance();
    session.handle_action(ActionKind::SeekBackward);
    assert!(received_ops(&session).is_empty());
    let mut bare = fresh_session();
    bare.handle_action(ActionKind::SeekBackward);
    assert!(bare.media_instance.is_none());
}

#[test]
fn all_actions_are_no_ops_without_an_instance() {
    let mut session = fresh_session();
    session.handle_action(ActionKind::Play);
    session.handle_action(ActionKind::Pause);
    session.handle_action(ActionKind::SeekForward);
    session.handle_action(ActionKind::PreviousTrack);
    session.handle_action(ActionKind::NextTrack);
    session.handle_action(ActionKind::SkipAd);
    session.handle_action(ActionKind::Stop);
    session.handle_action(ActionKind::SeekTo);
    assert!(session.media_instance.is_none());
    assert!(session.host.events.is_empty());
}

#[test]
fn later_instance_registration_replaces_the_earlier_one() {
    let mut session = session_with_instance();
    session.handle_action(ActionKind::Play);
    session.register_media_instance(RecordingInstance::new(true));
    assert!(received_ops(&session).is_empty());
    session.handle_action(ActionKind::Pause);
    assert_eq!(*received_ops(&session), vec![PlaybackOp::Pause]);
}
