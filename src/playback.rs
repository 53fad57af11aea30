//! The per-guild playback queue: tracks in the order they will play, and a pause flag.
use vstd::prelude::*;

verus! {

/// A length of time, as whole seconds and the nanoseconds beyond them.
#[derive(Clone, Copy, Debug, PartialEq, Eq, Structural)]
pub struct TrackLength {
    pub secs: u64,
    pub nanos: u32,
}

/// Seconds before a track's end at which the next one is prepared.
pub const PRELOAD_LEAD_SECS: u64 = 5;

/// The preload point of a track of length `d`: five seconds before its end,
/// or its whole length where it lasts five seconds or less.
pub open spec fn preload_point(d: TrackLength) -> TrackLength {
    if d.secs > PRELOAD_LEAD_SECS {
        TrackLength { secs: (d.secs - PRELOAD_LEAD_SECS) as u64, nanos: d.nanos }
    } else {
        d
    }
}

/// When to prepare the next track, for a track of the given length, if known.
pub fn preload_lead(length: Option<TrackLength>) -> (r: Option<TrackLength>)
    ensures
        r == (match length {
            Some(d) => Some(preload_point(d)),
            None => None,
        }),
{
    match length {
        Some(d) => {
            if d.secs > PRELOAD_LEAD_SECS {
                Some(TrackLength { secs: d.secs - PRELOAD_LEAD_SECS, nanos: d.nanos })
            } else {
                Some(d)
            }
        },
        None => None,
    }
}

/// A track in a guild's queue: where it streams from and what is shown of it.
#[derive(Debug)]
pub struct QueuedTrack {
    pub url: String,
    pub title: Option<String>,
    pub length: Option<TrackLength>,
}

impl Clone for QueuedTrack {
    fn clone(&self) -> (r: QueuedTrack)
        ensures
            r == *self,
    {
        let title = match &self.title {
            Some(t) => Some(t.clone()),
            None => None,
        };
        QueuedTrack { url: self.url.clone(), title, length: self.length }
    }
}

/// The queue of one guild.
pub struct PlaybackQueue {
    tracks: Vec<QueuedTrack>,
    paused: bool,
}

/// The entries after `t` was appended.
pub open spec fn after_enqueue(entries: Seq<QueuedTrack>, t: QueuedTrack) -> Seq<QueuedTrack> {
    entries.push(t)
}

/// The entries after each of `ts` was appended, one at a time, in order.
pub open spec fn after_enqueue_each(entries: Seq<QueuedTrack>, ts: Seq<QueuedTrack>) -> Seq<
    QueuedTrack,
>
    decreases ts.len(),
{
    if ts.len() == 0 {
        entries
    } else {
        after_enqueue(after_enqueue_each(entries, ts.drop_last()), ts.last())
    }
}

impl PlaybackQueue {
    /// The tracks, the one playing first.
    pub closed spec fn entries(&self) -> Seq<QueuedTrack> {
        self.tracks@
    }

    /// Whether playback is paused.
    pub closed spec fn is_paused(&self) -> bool {
        self.paused
    }

    /// Whether a track is playing: the queue holds one and is not paused.
    pub open spec fn is_playing(&self) -> bool {
        self.entries().len() > 0 && !self.is_paused()
    }

    /// An empty queue, not paused.
    pub fn new() -> (r: PlaybackQueue)
        ensures
            r.entries() == Seq::<QueuedTrack>::empty(),
            !r.is_paused(),
    {
        PlaybackQueue { tracks: Vec::new(), paused: false }
    }

    /// Number of tracks in the queue.
    pub fn len(&self) -> (r: usize)
        ensures
            r == self.entries().len(),
    {
        self.tracks.len()
    }

    /// Whether playback is paused.
    pub fn paused(&self) -> (r: bool)
        ensures
            r == self.is_paused(),
    {
        self.paused
    }

    /// Appends a track at the tail.
    pub fn enqueue(&mut self, t: QueuedTrack)
        ensures
            final(self).entries() == after_enqueue(old(self).entries(), t),
            final(self).is_paused() == old(self).is_paused(),
    {
        self.tracks.push(t);
    }

    /// Appends the tracks at the tail, in order.
    pub fn enqueue_all(&mut self, ts: Vec<QueuedTrack>)
        ensures
            final(self).entries() == after_enqueue_each(old(self).entries(), ts@),
            final(self).is_paused() == old(self).is_paused(),
    {
        let mut i: usize = 0;
        while i < ts.len()
            invariant
                i <= ts.len(),
                self.entries() == after_enqueue_each(old(self).entries(), ts@.take(i as int)),
                self.is_paused() == old(self).is_paused(),
            decreases ts.len() - i,
        {
            let t = ts[i].clone();
            self.enqueue(t);
            assert(ts@.take(i + 1).drop_last() =~= ts@.take(i as int));
            i = i + 1;
        }
        assert(ts@.take(i as int) =~= ts@);
    }

    /// Pauses playback; the tracks stay.
    pub fn pause(&mut self)
        ensures
            final(self).entries() == old(self).entries(),
            final(self).is_paused(),
    {
        self.paused = true;
    }

    /// Resumes playback; the tracks stay.
    pub fn resume(&mut self)
        ensures
            final(self).entries() == old(self).entries(),
            !final(self).is_paused(),
    {
        self.paused = false;
    }

    /// Ends the current track, whether it was skipped or played to its end,
    /// and returns it.
    pub fn skip(&mut self) -> (r: Option<QueuedTrack>)
        ensures
            old(self).entries().len() == 0 ==> r is None && final(self).entries() == old(
                self,
            ).entries(),
            old(self).entries().len() > 0 ==> r == Some(old(self).entries()[0])
                && final(self).entries() == old(self).entries().drop_first(),
            final(self).is_paused() == old(self).is_paused(),
    {
        if self.tracks.len() == 0 {
            None
        } else {
            let t = self.tracks.remove(0);
            assert(self.tracks@ =~= old(self).tracks@.drop_first());
            Some(t)
        }
    }

    /// Clears the queue; the pause flag stays.
    pub fn stop(&mut self)
        ensures
            final(self).entries() == Seq::<QueuedTrack>::empty(),
            final(self).is_paused() == old(self).is_paused(),
    {
        self.tracks.clear();
    }

    /// A copy of the queue as it is now, which later changes do not touch.
    pub fn snapshot(&self) -> (r: Vec<QueuedTrack>)
        ensures
            r@ == self.entries(),
    {
        let r = self.tracks.clone();
        assert(r@ =~= self.tracks@);
        r
    }
}

/// Appending tracks one at a time to an empty queue gives exactly those tracks,
/// in the order they were appended.
pub proof fn lemma_enqueue_order(ts: Seq<QueuedTrack>)
    ensures
        after_enqueue_each(Seq::<QueuedTrack>::empty(), ts) == ts,
        after_enqueue_each(Seq::<QueuedTrack>::empty(), ts).len() == ts.len(),
    decreases ts.len(),
{
    if ts.len() > 0 {
        lemma_enqueue_order(ts.drop_last());
        assert(ts.drop_last().push(ts.last()) =~= ts);
    }
}

} // verus!
