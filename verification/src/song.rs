use vstd::prelude::*;

verus! {

/// Longest song (in seconds) that `validate` lets into the queue: 20 minutes.
pub const MAX_SONG_SECONDS: u16 = 1200;

/// A song as it travels between the web page, the service and the hooks.
#[derive(Clone, Debug)]
pub struct Song {
    pub url: String,
    /// in seconds
    pub duration: Option<u16>,
    pub title: Option<String>,
    pub thumbnail_url: Option<String>,
}

/// The playing time of a song in seconds; a song of unknown length counts as 0.
pub open spec fn song_seconds(song: Song) -> nat {
    match song.duration {
        Some(d) => d as nat,
        None => 0,
    }
}

/// Why a song is refused.
#[derive(Debug)]
pub enum ValidationError {
    SongTooLong,
}

/// Failure of fetching song details with yt-dlp. Fetching does not fail yet,
/// so no function of the library produces this value.
#[derive(Debug)]
pub struct YtDlpError;

impl ValidationError {
    /// The human-readable message of the error.
    pub fn message(&self) -> (r: String)
        ensures
            r@ == "The length of your song exceeds the allowed limit!"@,
    {
        String::from_str("The length of your song exceeds the allowed limit!")
    }
}

fn clone_text(s: &Option<String>) -> (r: Option<String>)
    ensures
        r == *s,
{
    match s {
        Some(t) => Some(t.clone()),
        None => None,
    }
}

impl Song {
    /// A song known only by its URL.
    pub fn new(url: &str) -> (r: Song)
        ensures
            r.url@ == url@,
            r.duration is None,
            r.title is None,
            r.thumbnail_url is None,
    {
        Song { url: url.to_owned(), duration: None, title: None, thumbnail_url: None }
    }

    /// A copy of this song, equal to it in every field.
    pub fn duplicate(&self) -> (r: Song)
        ensures
            r == *self,
    {
        Song {
            url: self.url.clone(),
            duration: self.duration,
            title: clone_text(&self.title),
            thumbnail_url: clone_text(&self.thumbnail_url),
        }
    }

    /// The playing time in seconds, 0 when unknown.
    pub fn seconds(&self) -> (r: u16)
        ensures
            r == song_seconds(*self),
    {
        match self.duration {
            Some(d) => d,
            None => 0,
        }
    }
}

/// What the service does with a freshly requested song.
pub trait SongExt {
    /// Fill in the details of the song from yt-dlp.
    fn load_from_ytdlp(&mut self) -> Result<(), YtDlpError>;

    /// Refuse songs that are too long.
    fn validate(&self) -> Result<(), ValidationError>;
}

impl SongExt for Song {
    /// Details are not fetched yet: the song is left as it is and this succeeds.
    fn load_from_ytdlp(&mut self) -> (r: Result<(), YtDlpError>)
        ensures
            r is Ok,
            *final(self) == *old(self),
    {
        Ok(())
    }

    fn validate(&self) -> (r: Result<(), ValidationError>)
        ensures
            r is Ok <==> song_seconds(*self) <= MAX_SONG_SECONDS,
            r matches Err(e) ==> e == ValidationError::SongTooLong,
    {
        if self.seconds() > MAX_SONG_SECONDS {
            return Err(ValidationError::SongTooLong);
        }
        Ok(())
    }
}

} // verus!
