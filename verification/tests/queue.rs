use std::collections::VecDeque;

use kantyna_laser::{MusicQueue, MusicQueueExt, MusicQueuePreview, Song, SongExt, ValidationError};

fn song(url: &str, duration: Option<u16>) -> Song {
    let mut s = Song::new(url);
    s.duration = duration;
    s
}

#[test]
fn new_song_has_only_url() {
    let s = Song::new("https://youtu.be/abc");
    assert_eq!(s.url, "https://youtu.be/abc");
    assert_eq!(s.duration, None);
    assert_eq!(s.title, None);
    assert_eq!(s.thumbnail_url, None);
}

#[test]
fn validate_accepts_up_to_twenty_minutes() {
    assert!(song("a", None).validate().is_ok());
    assert!(song("a", Some(0)).validate().is_ok());
    assert!(song("a", Some(1200)).validate().is_ok());
    assert!(matches!(song("a", Some(1201)).validate(), Err(ValidationError::SongTooLong)));
    assert!(matches!(song("a", Some(u16::MAX)).validate(), Err(ValidationError::SongTooLong)));
}

#[test]
fn load_from_ytdlp_succeeds_and_keeps_song() {
    let mut s = song("u", Some(7));
    assert!(s.load_from_ytdlp().is_ok());
    assert_eq!(s.url, "u");
    assert_eq!(s.duration, Some(7));
}

#[test]
fn validation_error_message() {
    assert_eq!(
        ValidationError::SongTooLong.message(),
        "The length of your song exceeds the allowed limit!"
    );
}

#[test]
fn duplicate_equals_original() {
    let mut s = song("x", Some(3));
    s.title = Some("t".to_string());
    let d = s.duplicate();
    assert_eq!(d.url, "x");
    assert_eq!(d.duration, Some(3));
    assert_eq!(d.title.as_deref(), Some("t"));
    assert_eq!(d.thumbnail_url, None);
}

#[test]
fn default_queue_is_empty() {
    let q = MusicQueue::default();
    assert!(q.queue.is_empty());
    assert!(q.currently_played.is_none());
    let p = MusicQueuePreview::default();
    assert!(p.queue.queue.is_empty());
}

#[test]
fn enqueue_reports_wait_and_position() {
    let mut q = MusicQueue::default();
    assert_eq!(q.enqueue(song("a", Some(100))), (0, 1));
    assert_eq!(q.enqueue(song("b", None)), (100, 2));
    assert_eq!(q.enqueue(song("c", Some(30))), (100, 3));
    assert_eq!(q.enqueue(song("d", Some(1))), (130, 4));
    assert_eq!(q.queue.len(), 4);
    assert_eq!(q.queue.back().unwrap().url, "d");
}

#[test]
fn enqueue_counts_currently_played_song() {
    let mut q = MusicQueue::default();
    q.currently_played = Some(song("now", Some(50)));
    assert_eq!(q.enqueue(song("a", Some(10))), (50, 1));
    assert_eq!(q.enqueue(song("b", Some(10))), (60, 2));
    q.currently_played = Some(song("now", None));
    assert_eq!(q.enqueue(song("c", Some(10))), (20, 3));
}

#[test]
fn pull_next_hands_out_in_order_and_sets_current() {
    let mut q = MusicQueue::default();
    q.enqueue(song("a", Some(1)));
    q.enqueue(song("b", Some(2)));
    let first = q.pull_next().unwrap();
    assert_eq!(first.url, "a");
    assert_eq!(q.get_currently_played_song().unwrap().url, "a");
    let second = q.pull_next().unwrap();
    assert_eq!(second.url, "b");
    assert_eq!(q.get_currently_played_song().unwrap().url, "b");
    assert!(q.pull_next().is_none());
    assert!(q.get_currently_played_song().is_none());
    assert!(q.queue.is_empty());
}

#[test]
fn law_first_in_first_out_on_values() {
    let mut q = MusicQueue::default();
    let urls = ["1", "2", "3", "4", "5"];
    for u in urls {
        q.enqueue(song(u, None));
    }
    for u in urls {
        assert_eq!(q.pull_next().unwrap().url, u);
    }
    assert!(q.pull_next().is_none());
}

#[test]
fn law_enqueue_keeps_next_on_values() {
    let mut q = MusicQueue::default();
    q.enqueue(song("first", None));
    q.enqueue(song("later", None));
    assert_eq!(q.pull_next().unwrap().url, "first");
}

#[test]
fn law_wait_grows_by_song_on_values() {
    let mut q = MusicQueue::default();
    q.currently_played = Some(song("p", Some(7)));
    let before = q.wait_seconds().unwrap();
    q.enqueue(song("a", Some(33)));
    assert_eq!(q.wait_seconds().unwrap(), before + 33);
}

#[test]
fn wait_seconds_detects_overflow() {
    let mut q = MusicQueue::default();
    let mut songs = VecDeque::new();
    for _ in 0..65537 {
        songs.push_back(song("x", Some(u16::MAX)));
    }
    q.queue = songs;
    assert_eq!(q.wait_seconds(), Some(65537u32 * 65535));
    q.queue.push_back(song("y", Some(2)));
    assert_eq!(q.wait_seconds(), None);
}

#[test]
fn law_first_in_first_out_with_songs_waiting() {
    let mut q = MusicQueue::default();
    q.enqueue(song("w1", None));
    q.enqueue(song("w2", None));
    let (_, pos) = q.enqueue(song("new", None));
    assert_eq!(pos, 3);
    assert_eq!(q.pull_next().unwrap().url, "w1");
    assert_eq!(q.pull_next().unwrap().url, "w2");
    assert_eq!(q.pull_next().unwrap().url, "new");
    assert!(q.pull_next().is_none());
}
