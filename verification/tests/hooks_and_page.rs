use kantyna_laser::website::{
    enqueue_endpoint, message_box_lines, preview_queue_endpoint, queue_panel_lines, refresh_queue_result,
    song_lines, submit_result, total_queue_seconds, QUEUE_REFRESH_PERIOD_MS,
    REFRESH_AFTER_SUBMIT_MS,
};
use kantyna_laser::{
    get_endpoint_base, init, run_refresh_queue, run_submit, update, Command, EnqueueRequestReply,
    FetchOutcome, HookRunner, MessageBoxContent, MusicQueueExt, MusicQueuePreview, Msg,
    RefreshPlan, Song, SubmitPlan, DEFAULT_HOOK_DIR,
};

#[test]
fn hook_dir_prefers_environment() {
    assert_eq!(HookRunner::hook_dir(Some("/etc/hooks".to_string())), "/etc/hooks");
    assert_eq!(HookRunner::hook_dir(None), "./hooks");
    assert_eq!(DEFAULT_HOOK_DIR, "./hooks");
}

#[test]
fn load_entries_keeps_non_directories_in_order() {
    let mut r = HookRunner::default();
    r.register_entry("old".to_string(), false);
    let entries = vec![
        ("hooks/play.py".to_string(), false),
        ("hooks/sub".to_string(), true),
        ("hooks/notify.sh".to_string(), false),
    ];
    r.load_entries(&entries);
    assert_eq!(r.hooks(), &vec!["hooks/play.py".to_string(), "hooks/notify.sh".to_string()]);
}

#[test]
fn register_entry_skips_directories() {
    let mut r = HookRunner::default();
    r.register_entry("d".to_string(), true);
    assert!(r.hooks().is_empty());
    r.register_entry("f".to_string(), false);
    assert_eq!(r.hooks(), &vec!["f".to_string()]);
    r.clear();
    assert!(r.hooks().is_empty());
}

#[test]
fn page_starts_empty_and_asks_for_queue() {
    let start = init();
    assert_eq!(start.model.youtube_url, "");
    assert!(start.model.music_queue_preview.is_none());
    assert!(matches!(start.model.message_box_content, MessageBoxContent::Nothing));
    assert!(matches!(start.first_event, Msg::RefreshQueuePreview));
    assert!(matches!(start.repeated_event, Msg::RefreshQueuePreview));
    assert_eq!(start.repeat_every_ms, 60_000);
    assert_eq!(QUEUE_REFRESH_PERIOD_MS, 60_000);
}

#[test]
fn update_follows_events() {
    let mut model = init().model;
    let u = update(Msg::InputValue("youtu.be/q".to_string()), &mut model);
    assert!(!u.render);
    assert!(matches!(u.command, Command::Nothing));
    assert_eq!(model.youtube_url, "youtu.be/q");

    let u = update(Msg::Submit, &mut model);
    assert!(!u.render);
    match u.command {
        Command::Submit(url) => assert_eq!(url, "youtu.be/q"),
        _ => panic!("expected submit"),
    }

    let u = update(Msg::RefreshQueuePreview, &mut model);
    assert!(!u.render);
    assert!(matches!(u.command, Command::RefreshQueue));

    let u = update(Msg::ShowEnqueueProcessingScreen, &mut model);
    assert!(u.render);
    assert!(matches!(model.message_box_content, MessageBoxContent::LoadingScreen));

    let u = update(
        Msg::DisplayEnqueueRequestReply(Box::new(EnqueueRequestReply::from_err_msg("e"))),
        &mut model,
    );
    assert!(u.render);
    match &model.message_box_content {
        MessageBoxContent::EnqueueRequestReply(r) => {
            assert_eq!(r.error_message.as_deref(), Some("e"))
        }
        _ => panic!("expected reply"),
    }

    let u = update(Msg::DisplayNewQueuePreview(Box::new(MusicQueuePreview::default())), &mut model);
    assert!(u.render);
    assert!(model.music_queue_preview.is_some());
    assert_eq!(model.youtube_url, "youtu.be/q");
}

#[test]
fn endpoint_from_hostname() {
    assert_eq!(get_endpoint_base(Some("192.168.0.5")).unwrap(), "http://192.168.0.5:8090");
    assert_eq!(get_endpoint_base(Some("pa?rty?")).unwrap(), "http://party:8090");
    assert_eq!(
        get_endpoint_base(None).unwrap_err(),
        "'window.location.host' could not be evaluated to a string."
    );
    assert_eq!(preview_queue_endpoint("http://h:8090"), "http://h:8090/preview_queue");
    assert_eq!(enqueue_endpoint("http://h:8090"), "http://h:8090/enqueue");
}

#[test]
fn refresh_results() {
    match refresh_queue_result(FetchOutcome::Received(MusicQueuePreview::default())) {
        Msg::DisplayNewQueuePreview(p) => assert!(p.queue.queue.is_empty()),
        _ => panic!(),
    }
    match refresh_queue_result(FetchOutcome::BadReply("Error(\"x\")".to_string())) {
        Msg::DisplayEnqueueRequestReply(r) => assert_eq!(
            r.error_message.as_deref(),
            Some("Failed to deserialize reply: Error(\"x\")")
        ),
        _ => panic!(),
    }
    match refresh_queue_result(FetchOutcome::NoResponse("e".to_string())) {
        Msg::DisplayEnqueueRequestReply(r) => {
            assert_eq!(r.error_message.as_deref(), Some("Failed to get a response: e"))
        }
        _ => panic!(),
    }
    match refresh_queue_result(FetchOutcome::NotSent("e".to_string())) {
        Msg::DisplayEnqueueRequestReply(r) => {
            assert_eq!(r.error_message.as_deref(), Some("Failed to send request: e"))
        }
        _ => panic!(),
    }
}

#[test]
fn submit_results() {
    let mut reply = EnqueueRequestReply::from_err_msg("x");
    reply.error_message = None;
    reply.pos_in_queue = Some(3);
    let follow = submit_result(FetchOutcome::Received(reply));
    match follow.later {
        Some((1500, Msg::RefreshQueuePreview)) => {}
        _ => panic!("expected a refresh after 1500 ms"),
    }
    assert_eq!(REFRESH_AFTER_SUBMIT_MS, 1500);
    match follow.event {
        Msg::DisplayEnqueueRequestReply(r) => assert_eq!(r.pos_in_queue, Some(3)),
        _ => panic!(),
    }
    let follow = submit_result(FetchOutcome::NotSent("down".to_string()));
    assert!(follow.later.is_none());
    match follow.event {
        Msg::DisplayEnqueueRequestReply(r) => {
            assert_eq!(r.error_message.as_deref(), Some("Failed to send request: down"))
        }
        _ => panic!(),
    }
}

#[test]
fn submit_plan_shows_loading_screen_then_posts() {
    match run_submit(Some("host?"), "youtu.be/a".to_string()) {
        SubmitPlan::Send { before_request, endpoint, request } => {
            assert!(matches!(before_request, Msg::ShowEnqueueProcessingScreen));
            assert_eq!(endpoint, "http://host:8090/enqueue");
            assert_eq!(request.url, "youtu.be/a");
        }
        SubmitPlan::GiveUp { .. } => panic!("expected a request"),
    }
    match run_submit(None, "youtu.be/a".to_string()) {
        SubmitPlan::GiveUp { log } => {
            assert_eq!(log, "'window.location.host' could not be evaluated to a string.")
        }
        SubmitPlan::Send { .. } => panic!("expected no request"),
    }
}

#[test]
fn refresh_plan_fetches_or_gives_up() {
    match run_refresh_queue(Some("10.0.0.1")) {
        RefreshPlan::Fetch { endpoint } => assert_eq!(endpoint, "http://10.0.0.1:8090/preview_queue"),
        RefreshPlan::GiveUp { .. } => panic!(),
    }
    assert!(matches!(run_refresh_queue(None), RefreshPlan::GiveUp { .. }));
}

#[test]
fn page_total_of_queue() {
    let mut p = MusicQueuePreview::default();
    assert_eq!(total_queue_seconds(&p), Some(0));
    let mut a = Song::new("a");
    a.duration = Some(100);
    let mut b = Song::new("b");
    b.duration = Some(20);
    p.queue.enqueue(a);
    p.queue.enqueue(b);
    let mut now = Song::new("now");
    now.duration = Some(3);
    p.queue.currently_played = Some(now);
    assert_eq!(total_queue_seconds(&p), Some(123));
    // the page's total is what the service reports as the wait for the next song
    assert_eq!(p.queue.enqueue(Song::new("c")).0, 123);
}

#[test]
fn song_text_lines() {
    let mut s = Song::new("u");
    s.title = Some("Tytuł".to_string());
    s.duration = Some(61);
    assert_eq!(song_lines(&s), vec!["No image", "u", "Tytuł", "Długość: 1 minut 1 sekund "]);
    s.thumbnail_url = Some("http://img".to_string());
    s.title = None;
    assert_eq!(song_lines(&s), vec!["http://img", "u", "", "Długość: 1 minut 1 sekund "]);
}

#[test]
fn message_box_text_lines() {
    assert!(message_box_lines(&MessageBoxContent::Nothing).is_empty());
    assert_eq!(message_box_lines(&MessageBoxContent::LoadingScreen), vec!["Ładowanie..."]);
    let err = EnqueueRequestReply::from_err_msg("zły link");
    assert_eq!(
        message_box_lines(&MessageBoxContent::EnqueueRequestReply(Box::new(err))),
        vec!["Wystąpił błąd:", "zły link"]
    );
    let mut ok = EnqueueRequestReply::from_err_msg("");
    ok.error_message = None;
    ok.pos_in_queue = Some(4);
    ok.time_to_wait = Some(3725);
    assert_eq!(
        message_box_lines(&MessageBoxContent::EnqueueRequestReply(Box::new(ok.clone()))),
        vec![
            "Twoja piosenka została dodana do kolejki.",
            "Pozycja w kolejce: 4",
            "Szacowany czas oczekiwania: 1 godzin 2 minut 5 sekund ",
            "Brak informacji o piosence",
        ]
    );
    ok.song_info = Some(Song::new("x"));
    assert_eq!(
        message_box_lines(&MessageBoxContent::EnqueueRequestReply(Box::new(ok))),
        vec![
            "Twoja piosenka została dodana do kolejki.",
            "Pozycja w kolejce: 4",
            "Szacowany czas oczekiwania: 1 godzin 2 minut 5 sekund ",
            "No image",
            "x",
            "",
            "Długość: 0 sekund ",
        ]
    );
}

#[test]
fn queue_panel_text_lines() {
    assert_eq!(queue_panel_lines(None), vec!["Nie ma nic do pokazania"]);
    let mut p = MusicQueuePreview::default();
    assert_eq!(
        queue_panel_lines(Some(&p)),
        vec![
            "Obecnie odtwarzane",
            "Obecnie nic nie jest odtwarzane",
            "Następnie",
            "Nie ma dalej nic w kolejce",
            "Całkowita długość: 0 sekund ",
        ]
    );
    let mut a = Song::new("a");
    a.duration = Some(60);
    let mut now = Song::new("now");
    now.duration = Some(5);
    now.thumbnail_url = Some("img".to_string());
    p.queue.enqueue(a);
    p.queue.enqueue(Song::new("b"));
    p.queue.currently_played = Some(now);
    assert_eq!(
        queue_panel_lines(Some(&p)),
        vec![
            "Obecnie odtwarzane",
            "img",
            "now",
            "",
            "Długość: 5 sekund ",
            "Następnie",
            "No image",
            "a",
            "",
            "Długość: 1 minut 0 sekund ",
            "No image",
            "b",
            "",
            "Długość: 0 sekund ",
            "Całkowita długość: 1 minut 5 sekund ",
        ]
    );
}
