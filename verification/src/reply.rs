use vstd::prelude::*;

use crate::error::{error_message, EnqueueError};
use crate::song::Song;

verus! {

/// Represents the message sent from the website UI
#[derive(Debug)]
pub struct EnqueueRequest {
    pub url: String,
}

/// The service's answer to an enqueue request.
#[derive(Debug, Clone)]
pub struct EnqueueRequestReply {
    /// Not empty upon error
    pub error_message: Option<String>,
    pub pos_in_queue: Option<u32>,
    /// in seconds
    pub time_to_wait: Option<u32>,
    pub song_info: Option<Song>,
}

impl EnqueueRequestReply {
    /// The reply refusing a request for the reason `err`.
    pub fn from_err(err: EnqueueError) -> (r: Self)
        ensures
            r.error_message matches Some(m) && m@ == error_message(err),
            r.pos_in_queue is None,
            r.time_to_wait is None,
            r.song_info is None,
    {
        EnqueueRequestReply {
            error_message: Some(err.message()),
            pos_in_queue: None,
            time_to_wait: None,
            song_info: None,
        }
    }

    /// The reply carrying only the error text `err_msg`.
    pub fn from_err_msg(err_msg: &str) -> (r: Self)
        ensures
            r.error_message matches Some(m) && m@ == err_msg@,
            r.pos_in_queue is None,
            r.time_to_wait is None,
            r.song_info is None,
    {
        EnqueueRequestReply {
            error_message: Some(err_msg.to_owned()),
            pos_in_queue: None,
            time_to_wait: None,
            song_info: None,
        }
    }
}

} // verus!
