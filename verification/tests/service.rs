use kantyna_laser::{
    anyhow_error_to_stdio_error, handle_enqueue, sanitize, try_sanitize, EnqueueError,
    EnqueueRequest, EnqueueRequestReply, MusicQueue, MusicQueueExt, ValidationError, YtDlpError,
};

#[test]
fn error_messages() {
    assert_eq!(
        EnqueueError::DeserializationError("EOF".to_string()).message(),
        "Failed to deserialize the JSON: EOF"
    );
    assert_eq!(
        EnqueueError::IoOperationError("denied".to_string()).message(),
        "Unable to perform I/O operation: denied"
    );
    assert_eq!(
        EnqueueError::SanitizationError("bad".to_string()).message(),
        "Illegal URL: bad"
    );
    assert_eq!(
        EnqueueError::ValidationError(ValidationError::SongTooLong).message(),
        "Forbidden: The length of your song exceeds the allowed limit!"
    );
    assert_eq!(
        EnqueueError::InfoExtractionError(YtDlpError).message(),
        "Could not extract info about song: "
    );
}

#[test]
fn reply_from_err() {
    let r = EnqueueRequestReply::from_err(EnqueueError::SanitizationError("x".to_string()));
    assert_eq!(r.error_message.as_deref(), Some("Illegal URL: x"));
    assert!(r.pos_in_queue.is_none());
    assert!(r.time_to_wait.is_none());
    assert!(r.song_info.is_none());
}

#[test]
fn reply_from_err_msg() {
    let r = EnqueueRequestReply::from_err_msg("oops");
    assert_eq!(r.error_message.as_deref(), Some("oops"));
    assert!(r.pos_in_queue.is_none());
    assert!(r.time_to_wait.is_none());
    assert!(r.song_info.is_none());
}

#[test]
fn sanitize_accepts_youtube_urls() {
    for url in [
        "https://www.youtube.com/watch?v=dQw4w9WgXcQ",
        "http://youtube.com/watch?v=abc-_1",
        "youtu.be/xyz",
        "https://youtu.be/dQw4w9WgXcQ?t=3",
    ] {
        assert_eq!(sanitize(url.to_string()).unwrap(), url);
    }
}

#[test]
fn sanitize_refuses_other_urls() {
    for url in [
        "https://vimeo.com/123",
        "",
        "https://www.youtube.com/",
        "ftp://youtu.be/x",
        "youtuxbe/abc",
        "https://youtuXbe/abc",
    ] {
        match sanitize(url.to_string()) {
            Err(EnqueueError::SanitizationError(m)) => {
                assert_eq!(m, "URL doesn't match any know YouTube URL")
            }
            _ => panic!("accepted {}", url),
        }
    }
}

#[test]
fn try_sanitize_runs_when_pattern_compiles() {
    assert_eq!(
        try_sanitize("youtu.be/a".to_string()).unwrap().unwrap(),
        "youtu.be/a"
    );
    assert!(try_sanitize("nope".to_string()).unwrap().is_err());
}

#[test]
fn anyhow_errors_become_other_io_errors() {
    let e = anyhow_error_to_stdio_error(anyhow::Error::msg("hooks missing"));
    assert_eq!(e.kind(), std::io::ErrorKind::Other);
    assert_eq!(e.to_string(), "hooks missing");
}

#[test]
fn handle_enqueue_accepts_request() {
    let mut q = MusicQueue::default();
    q.enqueue({
        let mut s = kantyna_laser::Song::new("before");
        s.duration = Some(42);
        s
    });
    let a = handle_enqueue(
        &mut q,
        Ok(EnqueueRequest { url: "https://youtu.be/x".to_string() }),
    );
    assert!(a.accepted);
    assert!(a.reply.error_message.is_none());
    assert_eq!(a.reply.pos_in_queue, Some(2));
    assert_eq!(a.reply.time_to_wait, Some(42));
    assert_eq!(a.reply.song_info.as_ref().unwrap().url, "https://youtu.be/x");
    assert_eq!(q.queue.len(), 2);
    assert_eq!(q.queue[1].url, "https://youtu.be/x");
}

#[test]
fn handle_enqueue_accepts_any_url() {
    let mut q = MusicQueue::default();
    let a = handle_enqueue(&mut q, Ok(EnqueueRequest { url: "not a url".to_string() }));
    assert!(a.accepted);
    assert_eq!(a.reply.pos_in_queue, Some(1));
    assert_eq!(a.reply.time_to_wait, Some(0));
}

#[test]
fn handle_enqueue_refuses_bad_json() {
    let mut q = MusicQueue::default();
    let a = handle_enqueue(&mut q, Err("expected value at line 1 column 1".to_string()));
    assert!(!a.accepted);
    assert_eq!(
        a.reply.error_message.as_deref(),
        Some("Failed to deserialize the JSON: expected value at line 1 column 1")
    );
    assert!(a.reply.pos_in_queue.is_none());
    assert!(a.reply.time_to_wait.is_none());
    assert!(a.reply.song_info.is_none());
    assert!(q.queue.is_empty());
}
