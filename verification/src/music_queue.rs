use std::collections::VecDeque;
use vstd::prelude::*;

use crate::song::{song_seconds, Song};

verus! {

/// The songs waiting to be played, in order, and the song playing now.
#[derive(Clone, Debug)]
pub struct MusicQueue {
    pub queue: VecDeque<Song>,
    pub currently_played: Option<Song>,
}

/// What the web page receives when it asks for the queue.
#[derive(Clone, Debug)]
pub struct MusicQueuePreview {
    pub queue: MusicQueue,
}

/// The abstract state of a `MusicQueue`.
pub struct QueueState {
    pub waiting: Seq<Song>,
    pub playing: Option<Song>,
}

/// Total playing time of a sequence of songs, in seconds.
pub open spec fn total_seconds(songs: Seq<Song>) -> nat
    decreases songs.len(),
{
    if songs.len() == 0 {
        0
    } else {
        total_seconds(songs.drop_last()) + song_seconds(songs.last())
    }
}

/// Playing time of the song that may be playing, 0 when none is.
pub open spec fn playing_seconds(playing: Option<Song>) -> nat {
    match playing {
        Some(s) => song_seconds(s),
        None => 0,
    }
}

impl QueueState {
    /// Seconds until a song added now starts: everything waiting plus the song playing now.
    pub open spec fn wait_seconds(self) -> nat {
        total_seconds(self.waiting) + playing_seconds(self.playing)
    }

    /// The state after `song` joins the end of the queue.
    pub open spec fn enqueued(self, song: Song) -> QueueState {
        QueueState { waiting: self.waiting.push(song), playing: self.playing }
    }

    /// The song that leaves the queue when the next one is pulled.
    pub open spec fn next_song(self) -> Option<Song> {
        if self.waiting.len() > 0 {
            Some(self.waiting[0])
        } else {
            None
        }
    }

    /// The state after the next song is pulled: it leaves the queue and becomes
    /// the song playing now (nothing plays when the queue was empty).
    pub open spec fn pulled(self) -> QueueState {
        QueueState {
            waiting: if self.waiting.len() > 0 { self.waiting.drop_first() } else { self.waiting },
            playing: self.next_song(),
        }
    }
}

impl View for MusicQueue {
    type V = QueueState;

    open spec fn view(&self) -> QueueState {
        QueueState { waiting: self.queue@, playing: self.currently_played }
    }
}

/// The total of a prefix never exceeds the total of the whole sequence.
pub proof fn lemma_total_seconds_prefix(songs: Seq<Song>, i: int)
    requires
        0 <= i <= songs.len(),
    ensures
        total_seconds(songs.take(i)) <= total_seconds(songs),
    decreases songs.len() - i,
{
    if i < songs.len() {
        lemma_total_seconds_prefix(songs, i + 1);
        assert(songs.take(i + 1).drop_last() =~= songs.take(i));
    } else {
        assert(songs.take(i) =~= songs);
    }
}

/// Adding a song adds its playing time to the total.
pub proof fn lemma_total_seconds_push(songs: Seq<Song>, song: Song)
    ensures
        total_seconds(songs.push(song)) == total_seconds(songs) + song_seconds(song),
{
    assert(songs.push(song).drop_last() =~= songs);
}

/// The state after adding `songs` one by one, first to last.
pub open spec fn enqueue_all(st: QueueState, songs: Seq<Song>) -> QueueState
    decreases songs.len(),
{
    if songs.len() == 0 {
        st
    } else {
        enqueue_all(st, songs.drop_last()).enqueued(songs.last())
    }
}

/// What `n` pulls in a row hand out, starting from `st`.
pub open spec fn pulls(st: QueueState, n: nat) -> Seq<Option<Song>>
    decreases n,
{
    if n == 0 {
        Seq::empty()
    } else {
        seq![st.next_song()] + pulls(st.pulled(), (n - 1) as nat)
    }
}

/// Adding a song to a queue that already holds songs does not change which song
/// comes out next, and pulling then adding gives the same state as adding then pulling.
pub proof fn law_enqueue_keeps_next(st: QueueState, song: Song)
    requires
        st.waiting.len() > 0,
    ensures
        st.enqueued(song).next_song() == st.next_song(),
        st.enqueued(song).pulled() == st.pulled().enqueued(song),
{
    assert(st.waiting.push(song).drop_first() =~= st.waiting.drop_first().push(song));
}

/// A song added to an empty queue is the next one pulled, and then it is the song playing.
pub proof fn law_enqueue_into_empty(st: QueueState, song: Song)
    requires
        st.waiting.len() == 0,
    ensures
        st.enqueued(song).next_song() == Some(song),
        st.enqueued(song).pulled().playing == Some(song),
        st.enqueued(song).pulled().waiting.len() == 0,
{
}

/// Pulling from an empty queue hands out nothing, leaves the queue empty and
/// leaves nothing playing.
pub proof fn law_pull_from_empty(st: QueueState)
    requires
        st.waiting.len() == 0,
    ensures
        st.next_song() is None,
        st.pulled().waiting.len() == 0,
        st.pulled().playing is None,
{
}

/// The song pulled is the song that is playing afterwards.
pub proof fn law_pulled_song_plays(st: QueueState)
    ensures
        st.pulled().playing == st.next_song(),
{
}

/// Adding a song makes the wait for the next one longer by exactly its playing time.
pub proof fn law_wait_grows_by_song(st: QueueState, song: Song)
    ensures
        st.enqueued(song).wait_seconds() == st.wait_seconds() + song_seconds(song),
{
    lemma_total_seconds_push(st.waiting, song);
}

proof fn lemma_enqueue_all_waiting(st: QueueState, songs: Seq<Song>)
    ensures
        enqueue_all(st, songs).waiting == st.waiting + songs,
        enqueue_all(st, songs).playing == st.playing,
    decreases songs.len(),
{
    if songs.len() > 0 {
        lemma_enqueue_all_waiting(st, songs.drop_last());
        assert(st.waiting + songs =~= (st.waiting + songs.drop_last()).push(songs.last()));
    } else {
        assert(st.waiting + songs =~= st.waiting);
    }
}

proof fn lemma_pulls_hand_out_waiting(st: QueueState)
    ensures
        pulls(st, st.waiting.len()) == st.waiting.map_values(|s: Song| Some(s)),
    decreases st.waiting.len(),
{
    if st.waiting.len() > 0 {
        lemma_pulls_hand_out_waiting(st.pulled());
        assert(pulls(st, st.waiting.len()) =~= st.waiting.map_values(|s: Song| Some(s)));
    } else {
        assert(pulls(st, 0) =~= st.waiting.map_values(|s: Song| Some(s)));
    }
}

/// Songs come out of the queue in the order they went in: after adding `songs`
/// to a queue, pulling once for every song waiting and every song added hands out
/// first the songs that were waiting, then the added ones, each in its order.
pub proof fn law_first_in_first_out(st: QueueState, songs: Seq<Song>)
    ensures
        pulls(enqueue_all(st, songs), st.waiting.len() + songs.len())
            == (st.waiting + songs).map_values(|s: Song| Some(s)),
{
    lemma_enqueue_all_waiting(st, songs);
    lemma_pulls_hand_out_waiting(enqueue_all(st, songs));
}

/// A song added behind `n` waiting songs is handed out by the `n + 1`-th pull,
/// after the waiting songs in their order: the position `enqueue` reports is the
/// number of pulls that bring the song out.
pub proof fn law_enqueued_song_comes_out_at_its_position(st: QueueState, song: Song)
    ensures
        pulls(st.enqueued(song), st.waiting.len() + 1)
            == st.waiting.map_values(|s: Song| Some(s)).push(Some(song)),
        pulls(st.enqueued(song), st.waiting.len() + 1)[st.waiting.len() as int] == Some(song),
{
    let e = st.enqueued(song);
    lemma_pulls_hand_out_waiting(e);
    assert(e.waiting.map_values(|s: Song| Some(s)) =~= st.waiting.map_values(|s: Song| Some(s)).push(Some(song)));
}

/// Total playing time of songs added up from the first to the last, as the page does.
pub open spec fn total_seconds_from_front(songs: Seq<Song>) -> nat
    decreases songs.len(),
{
    if songs.len() == 0 {
        0
    } else {
        song_seconds(songs[0]) + total_seconds_from_front(songs.drop_first())
    }
}

/// The total length the page shows for a queue: the waiting songs added up from
/// the first, then the song playing now.
pub open spec fn page_total_seconds(st: QueueState) -> nat {
    total_seconds_from_front(st.waiting) + playing_seconds(st.playing)
}

proof fn lemma_total_seconds_first(songs: Seq<Song>)
    requires
        songs.len() > 0,
    ensures
        total_seconds(songs) == song_seconds(songs[0]) + total_seconds(songs.drop_first()),
    decreases songs.len(),
{
    if songs.len() > 1 {
        lemma_total_seconds_first(songs.drop_last());
        assert(songs.drop_first().drop_last() =~= songs.drop_last().drop_first());
    } else {
        assert(songs.drop_last() =~= Seq::<Song>::empty());
        assert(songs.drop_first() =~= Seq::<Song>::empty());
    }
}

proof fn lemma_total_seconds_from_front(songs: Seq<Song>)
    ensures
        total_seconds_from_front(songs) == total_seconds(songs),
    decreases songs.len(),
{
    if songs.len() > 0 {
        lemma_total_seconds_from_front(songs.drop_first());
        lemma_total_seconds_first(songs);
    }
}

/// The total length the page shows for a queue is the time the service tells a
/// guest to wait when a song is added to that queue.
pub proof fn law_page_total_is_wait(st: QueueState)
    ensures
        page_total_seconds(st) == st.wait_seconds(),
{
    lemma_total_seconds_from_front(st.waiting);
}

impl Default for MusicQueue {
    fn default() -> (r: MusicQueue)
        ensures
            r@.waiting == Seq::<Song>::empty(),
            r@.playing is None,
    {
        MusicQueue { queue: VecDeque::new(), currently_played: None }
    }
}

impl MusicQueue {
    /// Seconds until a song added now starts playing, when that fits in a `u32`.
    pub fn wait_seconds(&self) -> (r: Option<u32>)
        ensures
            r matches Some(t) ==> t == self@.wait_seconds(),
            r is None <==> self@.wait_seconds() > u32::MAX,
    {
        let n: usize = self.queue.len();
        let mut total: u32 = 0;
        let mut i: usize = 0;
        while i < n
            invariant
                n == self.queue@.len(),
                i <= n,
                total == total_seconds(self.queue@.take(i as int)),
            decreases n - i,
        {
            let s: u16 = self.queue[i].seconds();
            proof {
                assert(self.queue@.take(i + 1).drop_last() =~= self.queue@.take(i as int));
            }
            if total > u32::MAX - (s as u32) {
                proof {
                    lemma_total_seconds_prefix(self.queue@, i + 1);
                }
                return None;
            }
            total = total + s as u32;
            i = i + 1;
        }
        proof {
            assert(self.queue@.take(n as int) =~= self.queue@);
        }
        let cp: u32 = match &self.currently_played {
            Some(song) => song.seconds() as u32,
            None => 0,
        };
        if total > u32::MAX - cp {
            None
        } else {
            Some(total + cp)
        }
    }
}

impl Default for MusicQueuePreview {
    fn default() -> (r: MusicQueuePreview)
        ensures
            r.queue@.waiting == Seq::<Song>::empty(),
            r.queue@.playing is None,
    {
        MusicQueuePreview { queue: MusicQueue::default() }
    }
}

/// Operations of the service on its queue.
pub trait MusicQueueExt {
    /// Seconds until a song added now starts playing.
    spec fn spec_wait_seconds(&self) -> nat;

    /// Returns (time-to-wait, position in queue).
    fn enqueue(&mut self, song: Song) -> (u32, usize)
        requires
            old(self).spec_wait_seconds() <= u32::MAX,
    ;

    /// Returns song to be played now (if any).
    fn pull_next(&mut self) -> Option<Song>;

    fn get_currently_played_song(&self) -> Option<&Song>;
}

impl MusicQueueExt for MusicQueue {
    open spec fn spec_wait_seconds(&self) -> nat {
        self@.wait_seconds()
    }

    fn enqueue(&mut self, song: Song) -> (r: (u32, usize))
        ensures
            final(self)@ == old(self)@.enqueued(song),
            r.0 == old(self)@.wait_seconds(),
            r.1 == final(self)@.waiting.len(),
    {
        let ttw: u32 = match self.wait_seconds() {
            Some(t) => t,
            None => 0,
        };
        self.queue.push_back(song);
        let queue_pos: usize = self.queue.len();
        (ttw, queue_pos)
    }

    fn pull_next(&mut self) -> (r: Option<Song>)
        ensures
            final(self)@ == old(self)@.pulled(),
            r == old(self)@.next_song(),
    {
        let cp = self.queue.pop_front();
        self.currently_played = match &cp {
            Some(s) => Some(s.duplicate()),
            None => None,
        };
        proof {
            if old(self)@.waiting.len() > 0 {
                assert(self.queue@ =~= old(self)@.waiting.drop_first());
            }
        }
        cp
    }

    fn get_currently_played_song(&self) -> (r: Option<&Song>)
        ensures
            r is Some <==> self@.playing is Some,
            r matches Some(s) ==> self@.playing == Some(*s),
    {
        self.currently_played.as_ref()
    }
}

} // verus!
