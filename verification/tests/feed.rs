use fileshare::feed::{feed_ended, feed_step, FeedEvent, FeedMessage, FeedState};

fn run(events: &[FeedEvent]) -> (FeedState, Vec<FeedMessage>) {
    let mut state = FeedState::Opening;
    let mut sent = Vec::new();
    for event in events {
        let (next, message) = feed_step(state, *event);
        state = next;
        sent.extend(message);
    }
    (state, sent)
}

#[test]
fn a_live_stream_forwards_and_ends_on_stop() {
    let (state, sent) = run(&[
        FeedEvent::Opened(false),
        FeedEvent::Published,
        FeedEvent::Lagged,
        FeedEvent::ShareStopped,
        FeedEvent::Published,
        FeedEvent::ShareStopped,
    ]);
    assert!(feed_ended(state));
    assert_eq!(sent.len(), 4);
    assert!(matches!(sent[0], FeedMessage::Current));
    assert!(matches!(sent[1], FeedMessage::Published));
    assert!(matches!(sent[2], FeedMessage::Snapshot));
    assert!(matches!(sent[3], FeedMessage::ShareStopped));
}

#[test]
fn a_stream_opened_after_the_stop_only_learns_of_it() {
    let (state, sent) = run(&[FeedEvent::Opened(true), FeedEvent::Published, FeedEvent::ShareStopped]);
    assert!(feed_ended(state));
    assert_eq!(sent.len(), 1);
    assert!(matches!(sent[0], FeedMessage::ShareStopped));
}

#[test]
fn a_closed_channel_ends_quietly() {
    let (state, sent) = run(&[FeedEvent::Opened(false), FeedEvent::Closed, FeedEvent::ShareStopped]);
    assert!(feed_ended(state));
    assert_eq!(sent.len(), 1);
    assert!(matches!(sent[0], FeedMessage::Current));
}

#[test]
fn nothing_happens_before_opening() {
    let (state, sent) = run(&[FeedEvent::Published, FeedEvent::ShareStopped]);
    assert!(!feed_ended(state));
    assert!(sent.is_empty());
}
