use status_screen::channel::fetch_channel;
use status_screen::fetch::run_fetch;
use status_screen::{App, Body, Poll, Profile, Status};

fn sample_profile() -> Profile {
    Profile::new("username".to_string(), "dummy bio".to_string(), 100, 200)
}

#[test]
fn empty_open_channel_polls_empty_forever() {
    let (tx, rx) = fetch_channel();
    for _ in 0..1000 {
        assert!(matches!(rx.try_receive(), Poll::Empty));
    }
    drop(tx);
}

#[test]
fn sent_message_arrives_then_channel_closes() {
    let (tx, rx) = fetch_channel();
    let delivered = tx.send(Some(sample_profile()));
    assert!(delivered);
    match rx.try_receive() {
        Poll::Message(Some(p)) => assert_eq!(p.name, "username"),
        _ => panic!("expected the one message"),
    }
    for _ in 0..100 {
        assert!(matches!(rx.try_receive(), Poll::Closed));
    }
}

#[test]
fn dropped_sender_reports_closed() {
    let (tx, rx) = fetch_channel();
    drop(tx);
    for _ in 0..100 {
        assert!(matches!(rx.try_receive(), Poll::Closed));
    }
}

#[test]
fn dropped_receiver_makes_send_report_loss() {
    let (tx, rx) = fetch_channel();
    drop(rx);
    assert!(!tx.send(Some(sample_profile())));
}

#[test]
fn absent_payload_is_a_message() {
    let (tx, rx) = fetch_channel();
    assert!(tx.send(None));
    assert!(matches!(rx.try_receive(), Poll::Message(None)));
}

#[test]
fn run_fetch_delivers_exactly_one_canned_message() {
    let (tx, rx) = fetch_channel();
    assert!(run_fetch(tx));
    match rx.try_receive() {
        Poll::Message(Some(p)) => {
            assert_eq!(p.name, "username");
            assert_eq!(p.bio, "dummy bio");
            assert_eq!(p.followers, 100);
            assert_eq!(p.following, 200);
        },
        _ => panic!("expected the fetched profile"),
    }
    assert!(matches!(rx.try_receive(), Poll::Closed));
}

#[test]
fn session_without_fetch_sees_no_spurious_message() {
    let (tx, rx) = fetch_channel();
    let mut app = App::new(Some("alice".to_string()));
    for _ in 0..1000 {
        let panel = app.tick(rx.try_receive());
        assert!(matches!(panel.body, Body::Loading));
    }
    assert!(matches!(app.status(), Status::Loading));
    drop(tx);
}

#[test]
fn stalled_fetch_keeps_loading_after_close() {
    let (tx, rx) = fetch_channel();
    drop(tx);
    let mut app = App::new(Some("alice".to_string()));
    for _ in 0..1000 {
        let panel = app.tick(rx.try_receive());
        assert!(matches!(panel.body, Body::Loading));
    }
}

#[test]
fn fetch_completion_flips_loading_to_ready() {
    let (tx, rx) = fetch_channel();
    let mut app = App::new(Some("alice".to_string()));
    let before = app.tick(rx.try_receive());
    assert!(matches!(before.body, Body::Loading));
    assert!(run_fetch(tx));
    let after = app.tick(rx.try_receive());
    match after.body {
        Body::ProfileDump(p) => assert_eq!(p.name, "username"),
        _ => panic!("expected the profile after completion"),
    }
    let later = app.tick(rx.try_receive());
    assert!(matches!(later.body, Body::ProfileDump(_)));
}
