//! The event streams clients keep open: the item list and the download activity are pushed
//! as they change, and a stream ends with a last message when the share stops.
use vstd::prelude::*;

verus! {

/// What happens to an open event stream.
#[derive(Debug, Clone, Copy)]
pub enum FeedEvent {
    /// The stream opened; `true` when the share had already stopped by then.
    Opened(bool),
    /// The share stopped.
    ShareStopped,
    /// A new state was published.
    Published,
    /// The stream fell behind and missed published states.
    Lagged,
    /// Nothing will be published any more.
    Closed,
}

/// What a stream sends.
#[derive(Debug, Clone, Copy)]
pub enum FeedMessage {
    /// The `share-stopped` event.
    ShareStopped,
    /// The state as it was when the stream opened.
    Current,
    /// The state that was published.
    Published,
    /// The state read anew after the stream fell behind.
    Snapshot,
}

/// Where a stream is: not yet opened, sending, or ended.
#[derive(Debug, Clone, Copy)]
pub enum FeedState {
    Opening,
    Live,
    Ended,
}

/// The next state of a stream and what it sends, for one event. A stream opened after the
/// share stopped only says so and ends; otherwise it starts with the current state. While
/// live it forwards what is published, sends a fresh snapshot after falling behind, and ends
/// quietly when nothing more can be published, or with `share-stopped` when the share stops.
/// Nothing happens before the stream opens or after it ended.
pub open spec fn feed_next(state: FeedState, event: FeedEvent) -> (FeedState, Option<FeedMessage>) {
    match state {
        FeedState::Opening => match event {
            FeedEvent::Opened(true) => (FeedState::Ended, Some(FeedMessage::ShareStopped)),
            FeedEvent::Opened(false) => (FeedState::Live, Some(FeedMessage::Current)),
            _ => (FeedState::Opening, None),
        },
        FeedState::Live => match event {
            FeedEvent::Opened(_) => (FeedState::Live, None),
            FeedEvent::ShareStopped => (FeedState::Ended, Some(FeedMessage::ShareStopped)),
            FeedEvent::Published => (FeedState::Live, Some(FeedMessage::Published)),
            FeedEvent::Lagged => (FeedState::Live, Some(FeedMessage::Snapshot)),
            FeedEvent::Closed => (FeedState::Ended, None),
        },
        FeedState::Ended => (FeedState::Ended, None),
    }
}

/// One step of a stream.
pub fn feed_step(state: FeedState, event: FeedEvent) -> (res: (FeedState, Option<FeedMessage>))
    ensures
        res == feed_next(state, event),
{
    match state {
        FeedState::Opening => match event {
            FeedEvent::Opened(stopped) => {
                if stopped {
                    (FeedState::Ended, Some(FeedMessage::ShareStopped))
                } else {
                    (FeedState::Live, Some(FeedMessage::Current))
                }
            },
            _ => (FeedState::Opening, None),
        },
        FeedState::Live => match event {
            FeedEvent::Opened(_) => (FeedState::Live, None),
            FeedEvent::ShareStopped => (FeedState::Ended, Some(FeedMessage::ShareStopped)),
            FeedEvent::Published => (FeedState::Live, Some(FeedMessage::Published)),
            FeedEvent::Lagged => (FeedState::Live, Some(FeedMessage::Snapshot)),
            FeedEvent::Closed => (FeedState::Ended, None),
        },
        FeedState::Ended => (FeedState::Ended, None),
    }
}

/// Whether a stream in this state has ended.
pub fn feed_ended(state: FeedState) -> (res: bool)
    ensures
        res == (state is Ended),
{
    match state {
        FeedState::Ended => true,
        _ => false,
    }
}

/// The messages of an optional message.
pub open spec fn sent(m: Option<FeedMessage>) -> Seq<FeedMessage> {
    match m {
        Some(x) => seq![x],
        None => Seq::empty(),
    }
}

/// The state a stream reaches and everything it sends, for a sequence of events.
pub open spec fn feed_run(state: FeedState, events: Seq<FeedEvent>) -> (FeedState, Seq<FeedMessage>)
    decreases events.len(),
{
    if events.len() == 0 {
        (state, Seq::empty())
    } else {
        let (next, m) = feed_next(state, events[0]);
        let (last, rest) = feed_run(next, events.drop_first());
        (last, sent(m) + rest)
    }
}

proof fn lemma_ended_stays_silent(events: Seq<FeedEvent>)
    ensures
        feed_run(FeedState::Ended, events) == (FeedState::Ended, Seq::<FeedMessage>::empty()),
    decreases events.len(),
{
    if events.len() > 0 {
        lemma_ended_stays_silent(events.drop_first());
        assert(sent(None) + Seq::<FeedMessage>::empty() =~= Seq::<FeedMessage>::empty());
    }
}

proof fn lemma_stop_is_last(state: FeedState, events: Seq<FeedEvent>)
    ensures
        forall|i: int| 0 <= i < feed_run(state, events).1.len() && #[trigger] feed_run(state, events).1[i] is ShareStopped
            ==> i == feed_run(state, events).1.len() - 1 && feed_run(state, events).0 is Ended,
    decreases events.len(),
{
    if events.len() > 0 {
        let (next, m) = feed_next(state, events[0]);
        lemma_stop_is_last(next, events.drop_first());
        let rest = feed_run(next, events.drop_first()).1;
        let all = feed_run(state, events).1;
        assert(all == sent(m) + rest);
        if m matches Some(FeedMessage::ShareStopped) {
            assert(next is Ended);
            lemma_ended_stays_silent(events.drop_first());
            assert(all =~= seq![FeedMessage::ShareStopped]);
        }
        assert forall|i: int| 0 <= i < all.len() && #[trigger] all[i] is ShareStopped implies i == all.len() - 1
            && feed_run(state, events).0 is Ended by {
            if m is Some {
                if i >= 1 {
                    assert(all[i] == rest[i - 1]);
                }
            } else {
                assert(all =~= rest);
            }
        }
    }
}

/// A stream sends `share-stopped` at most once, as its very last message, and has ended
/// then: whatever happens afterwards, nothing more is sent.
pub proof fn share_stopped_is_the_last_message(events: Seq<FeedEvent>)
    ensures
        forall|i: int| 0 <= i < feed_run(FeedState::Opening, events).1.len()
            && #[trigger] feed_run(FeedState::Opening, events).1[i] is ShareStopped
            ==> i == feed_run(FeedState::Opening, events).1.len() - 1 && feed_run(FeedState::Opening, events).0 is Ended,
{
    lemma_stop_is_last(FeedState::Opening, events);
}

/// A stream opened after the share stopped sends `share-stopped` and nothing else, whatever
/// follows.
pub proof fn late_stream_only_learns_of_the_stop(events: Seq<FeedEvent>)
    requires
        events.len() > 0,
        events[0] == FeedEvent::Opened(true),
    ensures
        feed_run(FeedState::Opening, events) == (FeedState::Ended, seq![FeedMessage::ShareStopped]),
{
    lemma_ended_stays_silent(events.drop_first());
    assert(seq![FeedMessage::ShareStopped] + Seq::<FeedMessage>::empty() =~= seq![FeedMessage::ShareStopped]);
}

proof fn lemma_live_until_stop(events: Seq<FeedEvent>)
    requires
        events.len() > 0,
        events.last() == FeedEvent::ShareStopped,
        forall|i: int| 0 <= i < events.len() - 1 ==> !(#[trigger] events[i] is Closed),
    ensures
        feed_run(FeedState::Live, events).0 is Ended,
        feed_run(FeedState::Live, events).1.len() > 0,
        feed_run(FeedState::Live, events).1.last() == FeedMessage::ShareStopped,
    decreases events.len(),
{
    let (next, m) = feed_next(FeedState::Live, events[0]);
    if events.len() == 1 {
        assert(events[0] == FeedEvent::ShareStopped);
        assert(feed_run(next, events.drop_first()) == (next, Seq::<FeedMessage>::empty()));
        assert(feed_run(FeedState::Live, events).1 =~= seq![FeedMessage::ShareStopped]);
    } else {
        let rest = events.drop_first();
        if events[0] is ShareStopped {
            lemma_ended_stays_silent(rest);
            assert(feed_run(FeedState::Live, events).1 =~= seq![FeedMessage::ShareStopped]);
        } else {
            assert(!(events[0] is Closed));
            assert(next is Live);
            assert forall|i: int| 0 <= i < rest.len() - 1 implies !(#[trigger] rest[i] is Closed) by {
                assert(rest[i] == events[i + 1]);
            }
            assert(rest.last() == events.last());
            lemma_live_until_stop(rest);
            let r = feed_run(next, rest).1;
            assert(feed_run(FeedState::Live, events).1 == sent(m) + r);
            assert((sent(m) + r).last() == r.last());
        }
    }
}

/// When the share stops, a stream that opened while sharing and was still open (no close
/// came before) ends with `share-stopped` as its last message.
pub proof fn stop_ends_every_open_stream(events: Seq<FeedEvent>)
    requires
        events.len() >= 2,
        events[0] == FeedEvent::Opened(false),
        events.last() == FeedEvent::ShareStopped,
        forall|i: int| 0 < i < events.len() - 1 ==> !(#[trigger] events[i] is Closed),
    ensures
        feed_run(FeedState::Opening, events).0 is Ended,
        feed_run(FeedState::Opening, events).1.len() > 0,
        feed_run(FeedState::Opening, events).1.last() == FeedMessage::ShareStopped,
{
    let rest = events.drop_first();
    assert forall|i: int| 0 <= i < rest.len() - 1 implies !(#[trigger] rest[i] is Closed) by {
        assert(rest[i] == events[i + 1]);
    }
    assert(rest.last() == events.last());
    lemma_live_until_stop(rest);
    let r = feed_run(FeedState::Live, rest).1;
    assert(feed_run(FeedState::Opening, events).1 == seq![FeedMessage::Current] + r);
    assert((seq![FeedMessage::Current] + r).last() == r.last());
}

} // verus!
