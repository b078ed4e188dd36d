//! Frame synchronization on the receiving end of the telemetry link: a
//! continuous stream of bytes is cut into state frames.

use crate::protocol::{decode_state, State, SYNC_BYTE};
use vstd::prelude::*;

verus! {

/// The states that a stream of bytes reports, in order. Bytes are skipped
/// up to a synchronization byte; the ten bytes behind it are the payload of
/// one frame, whatever they hold; the search for the next synchronization
/// byte starts behind them. A frame that the stream breaks off in reports
/// nothing.
pub open spec fn frames(stream: Seq<u8>) -> Seq<State>
    decreases stream.len(),
{
    if stream.len() == 0 {
        Seq::empty()
    } else if stream[0] != SYNC_BYTE {
        frames(stream.skip(1))
    } else if stream.len() < 11 {
        Seq::empty()
    } else {
        seq![decode_state(stream.subrange(1, 11))] + frames(stream.skip(11))
    }
}

/// What the synchronizer knows of the stream so far: `None` while it looks
/// for a synchronization byte, else the payload bytes collected behind the
/// last one, fewer than ten.
pub type Progress = Option<Seq<u8>>;

/// The progress after one more byte.
pub open spec fn advance(progress: Progress, byte: u8) -> Progress {
    match progress {
        None => if byte == SYNC_BYTE {
            Some(Seq::empty())
        } else {
            None
        },
        Some(collected) => if collected.len() + 1 < 10 {
            Some(collected.push(byte))
        } else {
            None
        },
    }
}

/// The state that one more byte completes, if it completes one.
pub open spec fn completed(progress: Progress, byte: u8) -> Option<State> {
    match progress {
        Some(collected) => if collected.len() + 1 < 10 {
            None
        } else {
            Some(decode_state(collected.push(byte)))
        },
        None => None,
    }
}

/// The states that `completed` adds to a report: one or none.
pub open spec fn reported(state: Option<State>) -> Seq<State> {
    match state {
        Some(s) => seq![s],
        None => Seq::empty(),
    }
}

/// The progress after a whole stream, byte by byte.
pub open spec fn progress_after(progress: Progress, stream: Seq<u8>) -> Progress
    decreases stream.len(),
{
    if stream.len() == 0 {
        progress
    } else {
        advance(progress_after(progress, stream.drop_last()), stream.last())
    }
}

/// The states completed in the course of a whole stream, byte by byte.
pub open spec fn reports_after(progress: Progress, stream: Seq<u8>) -> Seq<State>
    decreases stream.len(),
{
    if stream.len() == 0 {
        Seq::empty()
    } else {
        reports_after(progress, stream.drop_last()) + reported(
            completed(progress_after(progress, stream.drop_last()), stream.last()),
        )
    }
}

/// Cuts a stream of bytes into state frames, one byte at a time.
#[derive(Debug)]
pub struct Synchronizer {
    payload: [u8; 10],
    filled: usize,
    synced: bool,
}

impl View for Synchronizer {
    type V = Progress;

    closed spec fn view(&self) -> Progress {
        if self.synced {
            Some(self.payload@.subrange(0, self.filled as int))
        } else {
            None
        }
    }
}

impl Synchronizer {
    #[verifier::type_invariant]
    spec fn well_formed(self) -> bool {
        self.filled < 10
    }

    /// A synchronizer at the start of a stream.
    pub fn new() -> (sync: Self)
        ensures
            sync@ is None,
    {
        Synchronizer { payload: [0u8; 10], filled: 0, synced: false }
    }

    /// Whether a synchronization byte has been seen and its payload is not
    /// complete yet.
    pub fn in_frame(&self) -> (b: bool)
        ensures
            b == self@ is Some,
    {
        self.synced
    }

    /// Takes the next byte of the stream and hands out the state that it
    /// completes, if it completes one.
    pub fn push(&mut self, byte: u8) -> (state: Option<State>)
        ensures
            final(self)@ == advance(old(self)@, byte),
            state == completed(old(self)@, byte),
    {
        proof {
            use_type_invariant(&*self);
        }
        if !self.synced {
            if byte == SYNC_BYTE {
                self.synced = true;
                self.filled = 0;
                assert(self@ == Some(Seq::<u8>::empty()));
            }
            return None;
        }
        let ghost before = self.payload@.subrange(0, self.filled as int);
        let mut payload = self.payload;
        payload[self.filled] = byte;
        let filled = self.filled + 1;
        assert(payload@.subrange(0, filled as int) == before.push(byte));
        if filled < 10 {
            self.payload = payload;
            self.filled = filled;
            None
        } else {
            assert(payload@ == before.push(byte));
            self.payload = payload;
            self.filled = 0;
            self.synced = false;
            Some(State::deserialize(&payload))
        }
    }

    /// Takes the next bytes of the stream and hands out the states that
    /// they complete, in order.
    pub fn feed(&mut self, bytes: &[u8]) -> (states: Vec<State>)
        ensures
            final(self)@ == progress_after(old(self)@, bytes@),
            states@ == reports_after(old(self)@, bytes@),
    {
        let mut states: Vec<State> = Vec::new();
        let mut i: usize = 0;
        while i < bytes.len()
            invariant
                i <= bytes.len(),
                self@ == progress_after(old(self)@, bytes@.take(i as int)),
                states@ == reports_after(old(self)@, bytes@.take(i as int)),
            decreases bytes.len() - i,
        {
            assert(bytes@.take(i + 1).drop_last() == bytes@.take(i as int));
            assert(bytes@.take(i + 1).last() == bytes@[i as int]);
            match self.push(bytes[i]) {
                Some(state) => {
                    states.push(state);
                },
                None => {},
            }
            i += 1;
        }
        assert(bytes@.take(i as int) == bytes@);
        states
    }
}

/// Feeding a stream in two parts is feeding it whole.
pub proof fn lemma_feed_in_parts(progress: Progress, first: Seq<u8>, second: Seq<u8>)
    ensures
        progress_after(progress, first + second) == progress_after(
            progress_after(progress, first),
            second,
        ),
        reports_after(progress, first + second) == reports_after(progress, first) + reports_after(
            progress_after(progress, first),
            second,
        ),
    decreases second.len(),
{
    if second.len() == 0 {
        assert(first + second == first);
    } else {
        lemma_feed_in_parts(progress, first, second.drop_last());
        assert((first + second).drop_last() == first + second.drop_last());
        assert((first + second).last() == second.last());
    }
}

proof fn lemma_feed_one(progress: Progress, byte: u8)
    ensures
        progress_after(progress, seq![byte]) == advance(progress, byte),
        reports_after(progress, seq![byte]) == reported(completed(progress, byte)),
{
    assert(seq![byte].drop_last() == Seq::<u8>::empty());
    assert(seq![byte].last() == byte);
    reveal_with_fuel(progress_after, 2);
    reveal_with_fuel(reports_after, 2);
}

proof fn lemma_feed_front(progress: Progress, stream: Seq<u8>)
    requires
        stream.len() > 0,
    ensures
        progress_after(progress, stream) == progress_after(
            advance(progress, stream[0]),
            stream.skip(1),
        ),
        reports_after(progress, stream) == reported(completed(progress, stream[0]))
            + reports_after(advance(progress, stream[0]), stream.skip(1)),
{
    lemma_feed_one(progress, stream[0]);
    lemma_feed_in_parts(progress, seq![stream[0]], stream.skip(1));
    assert(seq![stream[0]] + stream.skip(1) == stream);
}

proof fn lemma_feed_payload(collected: Seq<u8>, stream: Seq<u8>)
    requires
        collected.len() < 10,
    ensures
        collected.len() + stream.len() < 10 ==> progress_after(Some(collected), stream) == Some(
            collected + stream,
        ) && reports_after(Some(collected), stream) == Seq::<State>::empty(),
        collected.len() + stream.len() >= 10 ==> reports_after(Some(collected), stream) == seq![
            decode_state(collected + stream.take(10 - collected.len())),
        ] + frames(stream.skip(10 - collected.len())),
    decreases stream.len(), 1int,
{
    if stream.len() == 0 {
        assert(collected + stream == collected);
    } else {
        lemma_feed_front(Some(collected), stream);
        let rest = stream.skip(1);
        let more = collected.push(stream[0]);
        if collected.len() + 1 < 10 {
            lemma_feed_payload(more, rest);
            if collected.len() + stream.len() < 10 {
                assert(more + rest == collected + stream);
            } else {
                let need = 10 - collected.len();
                assert(more + rest.take(need - 1) == collected + stream.take(need));
                assert(rest.skip(need - 1) == stream.skip(need));
            }
        } else {
            lemma_frames_are_reports(rest);
            assert(stream.take(1) == seq![stream[0]]);
            assert(collected + stream.take(1) == more);
        }
    }
}

/// A synchronizer that starts at the start of a stream reports exactly the
/// frames of the stream.
pub proof fn lemma_frames_are_reports(stream: Seq<u8>)
    ensures
        reports_after(None, stream) == frames(stream),
    decreases stream.len(), 0int,
{
    if stream.len() > 0 {
        lemma_feed_front(None, stream);
        let rest = stream.skip(1);
        if stream[0] != SYNC_BYTE {
            lemma_frames_are_reports(rest);
        } else {
            lemma_feed_payload(Seq::empty(), rest);
            if stream.len() >= 11 {
                assert(Seq::<u8>::empty() + rest.take(10) == stream.subrange(1, 11));
                assert(rest.skip(10) == stream.skip(11));
            }
        }
    }
}

} // verus!
