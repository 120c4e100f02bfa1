use vstd::prelude::*;

verus! {

/// Where a future or stream built on a source stands: its source not yet
/// created, attached and awaited, or done with.
#[derive(Clone, Copy, Debug, PartialEq, Eq, Structural)]
pub enum SourcePhase {
    Unstarted,
    Waiting,
    Finished,
}

/// What polling the receiving end of a source's channel gave.
pub enum Received<T> {
    /// Nothing yet.
    Pending,
    /// A value sent by the source.
    Value(T),
    /// The sending end was dropped without sending.
    Closed,
}

/// The answer of a poll.
#[derive(Debug, PartialEq, Eq)]
pub enum SourcePoll<T> {
    Pending,
    Ready(T),
}

/// The start of a poll from the phase `p`: whether the source is created
/// now, and the phase after.
pub open spec fn spec_begin_poll(p: SourcePhase) -> (bool, SourcePhase) {
    (p == SourcePhase::Unstarted, SourcePhase::Waiting)
}

/// A source is created on the first poll only: once a poll has started,
/// no later poll creates one.
pub proof fn law_source_created_once(p: SourcePhase)
    ensures
        !spec_begin_poll(spec_begin_poll(p).1).0,
        spec_begin_poll(SourcePhase::Unstarted).0,
{
}

/// The decisions of a future that resolves to the first value its source
/// sends: the source is created and attached on the first poll, and given up
/// once it has sent its value.
#[derive(Debug)]
pub struct SourceFutureState {
    phase: SourcePhase,
}

impl SourceFutureState {
    /// Where the future stands.
    pub closed spec fn spec_phase(&self) -> SourcePhase {
        self.phase
    }

    /// A future whose source is not created yet.
    pub fn new() -> (r: SourceFutureState)
        ensures
            r.spec_phase() == SourcePhase::Unstarted,
    {
        SourceFutureState { phase: SourcePhase::Unstarted }
    }

    /// Starts a poll, which must not come after the future is done; answers
    /// whether the source is to be created and attached now, which happens on
    /// the first poll only.
    pub fn begin_poll(&mut self) -> (r: bool)
        requires
            old(self).spec_phase() != SourcePhase::Finished,
        ensures
            (r, final(self).spec_phase()) == spec_begin_poll(old(self).spec_phase()),
    {
        let create = match self.phase {
            SourcePhase::Unstarted => true,
            _ => false,
        };
        self.phase = SourcePhase::Waiting;
        create
    }

    /// Ends a poll with what the receiver gave, which must not be a closed
    /// channel: a value resolves the future, and the source is given up.
    pub fn finish_poll<T>(&mut self, received: Received<T>) -> (r: SourcePoll<T>)
        requires
            old(self).spec_phase() == SourcePhase::Waiting,
            !(received is Closed),
        ensures
            match received {
                Received::Value(v) => r == SourcePoll::Ready(v) && final(self).spec_phase() == SourcePhase::Finished,
                _ => r == SourcePoll::<T>::Pending && final(self).spec_phase() == SourcePhase::Waiting,
            },
    {
        match received {
            Received::Value(v) => {
                self.phase = SourcePhase::Finished;
                SourcePoll::Ready(v)
            },
            _ => SourcePoll::Pending,
        }
    }

    /// Whether a source is attached, to be destroyed when the future goes away.
    pub fn holds_source(&self) -> (r: bool)
        ensures
            r == (self.spec_phase() == SourcePhase::Waiting),
    {
        match self.phase {
            SourcePhase::Waiting => true,
            _ => false,
        }
    }
}

/// The decisions of a stream of the values its source sends: the source is
/// created and attached on the first poll, and given up once its channel
/// ends.
#[derive(Debug)]
pub struct SourceStreamState {
    phase: SourcePhase,
}

impl SourceStreamState {
    /// Where the stream stands.
    pub closed spec fn spec_phase(&self) -> SourcePhase {
        self.phase
    }

    /// A stream whose source is not created yet.
    pub fn new() -> (r: SourceStreamState)
        ensures
            r.spec_phase() == SourcePhase::Unstarted,
    {
        SourceStreamState { phase: SourcePhase::Unstarted }
    }

    /// Starts a poll, which must not come after the stream ended; answers
    /// whether the source is to be created and attached now.
    pub fn begin_poll(&mut self) -> (r: bool)
        requires
            old(self).spec_phase() != SourcePhase::Finished,
        ensures
            (r, final(self).spec_phase()) == spec_begin_poll(old(self).spec_phase()),
    {
        let create = match self.phase {
            SourcePhase::Unstarted => true,
            _ => false,
        };
        self.phase = SourcePhase::Waiting;
        create
    }

    /// Ends a poll with what the receiver gave: the next item, or the end of
    /// the stream, after which the source is given up.
    pub fn finish_poll<T>(&mut self, received: SourcePoll<Option<T>>) -> (r: SourcePoll<Option<T>>)
        requires
            old(self).spec_phase() == SourcePhase::Waiting,
        ensures
            r == received,
            final(self).spec_phase() == (if received == SourcePoll::Ready(None::<T>) {
                SourcePhase::Finished
            } else {
                SourcePhase::Waiting
            }),
    {
        match received {
            SourcePoll::Ready(None) => {
                self.phase = SourcePhase::Finished;
                SourcePoll::Ready(None)
            },
            other => other,
        }
    }

    /// Whether a source is attached, to be destroyed when the stream goes away.
    pub fn holds_source(&self) -> (r: bool)
        ensures
            r == (self.spec_phase() == SourcePhase::Waiting),
    {
        match self.phase {
            SourcePhase::Waiting => true,
            _ => false,
        }
    }
}

} // verus!
