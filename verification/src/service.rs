use vstd::prelude::*;

use crate::error::{error_message, EnqueueError};
use crate::music_queue::{MusicQueue, MusicQueueExt};
use crate::reply::{EnqueueRequest, EnqueueRequestReply};
use crate::song::{Song, SongExt};

verus! {

/// What the service answers to an enqueue request: the reply, and whether the
/// song was accepted (HTTP 202) or refused (HTTP 403).
pub struct EnqueueAnswer {
    pub reply: EnqueueRequestReply,
    pub accepted: bool,
}

/// Passes the URL through unchanged: requests are not restricted to YouTube URLs yet.
fn accept_url(url: String) -> (r: Result<String, EnqueueError>)
    ensures
        r == Ok::<String, EnqueueError>(url),
{
    Ok(url)
}

/// Steps of an enqueue request after its body was parsed: make a song of the
/// URL, check it, and add it to the end of the queue.
fn enqueue_song(queue: &mut MusicQueue, request: EnqueueRequest) -> (r: Result<(u32, usize, Song), EnqueueError>)
    requires
        old(queue)@.wait_seconds() <= u32::MAX,
    ensures
        r matches Ok((ttw, pos, song)) ==> {
            &&& final(queue)@ == old(queue)@.enqueued(song)
            &&& ttw == old(queue)@.wait_seconds()
            &&& pos == final(queue)@.waiting.len()
            &&& song.url@ == request.url@
            &&& song.duration is None
            &&& song.title is None
            &&& song.thumbnail_url is None
        },
        r is Ok,
{
    let url = accept_url(request.url)?;
    let mut new_song = Song::new(url.as_str());
    match new_song.load_from_ytdlp() {
        Ok(()) => {},
        Err(e) => { return Err(EnqueueError::InfoExtractionError(e)); },
    }
    match new_song.validate() {
        Ok(()) => {},
        Err(e) => { return Err(EnqueueError::ValidationError(e)); },
    }
    let copy = new_song.duplicate();
    let (ttw, pos): (u32, usize) = queue.enqueue(copy);
    Ok((ttw, pos, new_song))
}

/// Answers an enqueue request. `request` is the parsed request body, or the
/// parser's message when the body is not valid JSON.
pub fn handle_enqueue(queue: &mut MusicQueue, request: Result<EnqueueRequest, String>) -> (r: EnqueueAnswer)
    requires
        request is Ok ==> old(queue)@.wait_seconds() <= u32::MAX,
    ensures
        request matches Err(m) ==> {
            &&& !r.accepted
            &&& r.reply.error_message matches Some(msg)
            &&& msg@ == error_message(EnqueueError::DeserializationError(m))
            &&& r.reply.pos_in_queue is None
            &&& r.reply.time_to_wait is None
            &&& r.reply.song_info is None
            &&& final(queue)@ == old(queue)@
        },
        request matches Ok(req) ==> {
            &&& r.accepted
            &&& r.reply.error_message is None
            &&& r.reply.song_info matches Some(song)
            &&& song.url@ == req.url@
            &&& song.duration is None
            &&& song.title is None
            &&& song.thumbnail_url is None
            &&& final(queue)@ == old(queue)@.enqueued(song)
            &&& r.reply.pos_in_queue == Some(final(queue)@.waiting.len() as u32)
            &&& r.reply.time_to_wait == Some(old(queue)@.wait_seconds() as u32)
        },
{
    let outcome = match request {
        Ok(req) => enqueue_song(queue, req),
        Err(m) => Err(EnqueueError::DeserializationError(m)),
    };
    match outcome {
        Ok((ttw, pos, song)) => EnqueueAnswer {
            reply: EnqueueRequestReply {
                error_message: None,
                pos_in_queue: Some(pos as u32),
                time_to_wait: Some(ttw),
                song_info: Some(song),
            },
            accepted: true,
        },
        Err(e) => EnqueueAnswer { reply: EnqueueRequestReply::from_err(e), accepted: false },
    }
}

} // verus!
