//! Tracks and the per-guild FIFO queue of pending tracks.

use vstd::prelude::*;

verus! {

/// One playable audio item with its metadata.
///
/// `source` is the locator the audio node needs to stream the item;
/// `duration_ms` is absent for unbounded streams; `requester` identifies
/// the member who asked for the track.
#[derive(Debug, PartialEq, Eq)]
#[verifier::ext_equal]
pub struct Track {
    pub id: u64,
    pub title: String,
    pub source: String,
    pub duration_ms: Option<u64>,
    pub requester: u64,
}

impl Clone for Track {
    fn clone(&self) -> (r: Track)
        ensures
            r == *self,
    {
        let r = Track {
            id: self.id,
            title: self.title.clone(),
            source: self.source.clone(),
            duration_ms: self.duration_ms,
            requester: self.requester,
        };
        proof {
            assert(r =~= *self);
        }
        r
    }
}

/// Ordered FIFO backlog of tracks awaiting playback for one guild.
///
/// Insertion order is the play order; there is no priority. The queue
/// carries no locking of its own: it is only touched while its owning
/// session is being operated on.
#[derive(Debug)]
pub struct TrackQueue {
    items: Vec<Track>,
}

impl View for TrackQueue {
    type V = Seq<Track>;

    closed spec fn view(&self) -> Seq<Track> {
        self.items@
    }
}

impl TrackQueue {
    /// An empty queue.
    pub fn new() -> (q: TrackQueue)
        ensures
            q@ == Seq::<Track>::empty(),
    {
        TrackQueue { items: Vec::new() }
    }

    /// Number of pending tracks.
    pub fn len(&self) -> (n: usize)
        ensures
            n == self@.len(),
    {
        self.items.len()
    }

    /// Whether no track is pending.
    pub fn is_empty(&self) -> (b: bool)
        ensures
            b == (self@.len() == 0),
    {
        self.items.len() == 0
    }

    /// Appends a track at the tail.
    pub fn push_tail(&mut self, t: Track)
        ensures
            final(self)@ == old(self)@.push(t),
    {
        self.items.push(t);
    }

    /// Removes and returns the head track, if any.
    pub fn pop_head(&mut self) -> (r: Option<Track>)
        ensures
            old(self)@.len() == 0 ==> r is None && final(self)@ == old(self)@,
            old(self)@.len() > 0 ==> r == Some(old(self)@[0]) && final(self)@ == old(self)@.drop_first(),
    {
        if self.items.len() == 0 {
            None
        } else {
            let t = self.items.remove(0);
            proof {
                assert(self.items@ =~= old(self)@.drop_first());
            }
            Some(t)
        }
    }

    /// The head track without removing it.
    pub fn peek_head(&self) -> (r: Option<&Track>)
        ensures
            self@.len() == 0 ==> r is None,
            self@.len() > 0 ==> r == Some(&self@[0]),
    {
        if self.items.len() == 0 {
            None
        } else {
            Some(&self.items[0])
        }
    }

    /// Empties the queue and returns how many tracks were removed.
    pub fn clear(&mut self) -> (n: usize)
        ensures
            n == old(self)@.len(),
            final(self)@ == Seq::<Track>::empty(),
    {
        let n = self.items.len();
        self.items.clear();
        n
    }
}

} // verus!
