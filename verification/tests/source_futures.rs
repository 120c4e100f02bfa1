use glib::source_futures::{Received, SourceFutureState, SourcePhase, SourcePoll, SourceStreamState};

#[test]
fn source_future_creates_its_source_once() {
    let mut st = SourceFutureState::new();
    assert!(!st.holds_source());
    assert!(st.begin_poll());
    assert!(st.holds_source());
    assert_eq!(st.finish_poll::<u8>(Received::Pending), SourcePoll::Pending);
    assert!(!st.begin_poll());
    assert_eq!(st.finish_poll(Received::Value(5u8)), SourcePoll::Ready(5));
    assert!(!st.holds_source());
}

#[test]
fn source_stream_ends_with_its_channel() {
    let mut st = SourceStreamState::new();
    assert!(st.begin_poll());
    assert_eq!(st.finish_poll(SourcePoll::Ready(Some(1))), SourcePoll::Ready(Some(1)));
    assert!(!st.begin_poll());
    assert_eq!(st.finish_poll::<i32>(SourcePoll::Pending), SourcePoll::Pending);
    assert!(!st.begin_poll());
    assert_eq!(st.finish_poll::<i32>(SourcePoll::Ready(None)), SourcePoll::Ready(None));
    assert!(!st.holds_source());
    assert_eq!(SourcePhase::Waiting, SourcePhase::Waiting);
}
