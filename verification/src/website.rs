use vstd::prelude::*;

use crate::consts::BACKEND_PORT;
use crate::music_queue::{law_page_total_is_wait, page_total_seconds, MusicQueuePreview};
use crate::song::{song_seconds, Song};
use crate::reply::{EnqueueRequest, EnqueueRequestReply};
use crate::text::{decimal, decimal_string, pretty_print_seconds, pretty_seconds};

verus! {

/// What the message area of the page shows.
pub enum MessageBoxContent {
    Nothing,
    EnqueueRequestReply(Box<EnqueueRequestReply>),
    LoadingScreen,
}

/// State of the web page.
pub struct Model {
    pub youtube_url: String,
    pub music_queue_preview: Option<Box<MusicQueuePreview>>,
    pub message_box_content: MessageBoxContent,
}

/// Events the web page reacts to.
#[derive(Debug, Clone)]
pub enum Msg {
    InputValue(String),
    Submit,
    RefreshQueuePreview,
    ShowEnqueueProcessingScreen,
    DisplayNewQueuePreview(Box<MusicQueuePreview>),
    DisplayEnqueueRequestReply(Box<EnqueueRequestReply>),
}

/// Work the page starts in answer to an event.
pub enum Command {
    Nothing,
    /// Send the given URL to the service.
    Submit(String),
    /// Ask the service for the queue.
    RefreshQueue,
}

/// The answer of `update`: whether the page is drawn again, and what work starts.
pub struct Update {
    pub render: bool,
    pub command: Command,
}

/// How often the page asks for the queue on its own, in milliseconds.
pub const QUEUE_REFRESH_PERIOD_MS: u32 = 60000;

/// How long after the service's reply to a song the page asks for the queue again,
/// in milliseconds.
pub const REFRESH_AFTER_SUBMIT_MS: u32 = 1500;

/// How the page starts: its first state, the event it handles at once, and the
/// event it sends itself again and again, one period apart, without end.
pub struct Startup {
    pub model: Model,
    pub first_event: Msg,
    pub repeated_event: Msg,
    pub repeat_every_ms: u32,
}

/// The page when it opens: empty, asking for the queue at once and then every
/// 60 seconds.
pub fn init() -> (r: Startup)
    ensures
        r.model.youtube_url@ == Seq::<char>::empty(),
        r.model.music_queue_preview is None,
        r.model.message_box_content is Nothing,
        r.first_event is RefreshQueuePreview,
        r.repeated_event is RefreshQueuePreview,
        r.repeat_every_ms == QUEUE_REFRESH_PERIOD_MS,
{
    Startup {
        model: Model {
            youtube_url: String::new(),
            music_queue_preview: None,
            message_box_content: MessageBoxContent::Nothing,
        },
        first_event: Msg::RefreshQueuePreview,
        repeated_event: Msg::RefreshQueuePreview,
        repeat_every_ms: QUEUE_REFRESH_PERIOD_MS,
    }
}

/// Handles one event: updates the page state and tells what work to start.
pub fn update(msg: Msg, model: &mut Model) -> (r: Update)
    ensures
        match msg {
            Msg::Submit => {
                &&& !r.render
                &&& r.command matches Command::Submit(url) && url == old(model).youtube_url
                &&& *final(model) == *old(model)
            },
            Msg::InputValue(url) => {
                &&& !r.render
                &&& r.command is Nothing
                &&& final(model).youtube_url == url
                &&& final(model).music_queue_preview == old(model).music_queue_preview
                &&& final(model).message_box_content == old(model).message_box_content
            },
            Msg::RefreshQueuePreview => {
                &&& !r.render
                &&& r.command is RefreshQueue
                &&& *final(model) == *old(model)
            },
            Msg::DisplayNewQueuePreview(preview) => {
                &&& r.render
                &&& r.command is Nothing
                &&& final(model).youtube_url == old(model).youtube_url
                &&& final(model).music_queue_preview == Some(preview)
                &&& final(model).message_box_content == old(model).message_box_content
            },
            Msg::DisplayEnqueueRequestReply(reply) => {
                &&& r.render
                &&& r.command is Nothing
                &&& final(model).youtube_url == old(model).youtube_url
                &&& final(model).music_queue_preview == old(model).music_queue_preview
                &&& final(model).message_box_content == MessageBoxContent::EnqueueRequestReply(reply)
            },
            Msg::ShowEnqueueProcessingScreen => {
                &&& r.render
                &&& r.command is Nothing
                &&& final(model).youtube_url == old(model).youtube_url
                &&& final(model).music_queue_preview == old(model).music_queue_preview
                &&& final(model).message_box_content is LoadingScreen
            },
        },
{
    match msg {
        Msg::Submit => Update { render: false, command: Command::Submit(model.youtube_url.clone()) },
        Msg::InputValue(url) => {
            model.youtube_url = url;
            Update { render: false, command: Command::Nothing }
        },
        Msg::RefreshQueuePreview => Update { render: false, command: Command::RefreshQueue },
        Msg::DisplayNewQueuePreview(preview) => {
            model.music_queue_preview = Some(preview);
            Update { render: true, command: Command::Nothing }
        },
        Msg::DisplayEnqueueRequestReply(reply) => {
            model.message_box_content = MessageBoxContent::EnqueueRequestReply(reply);
            Update { render: true, command: Command::Nothing }
        },
        Msg::ShowEnqueueProcessingScreen => {
            model.message_box_content = MessageBoxContent::LoadingScreen;
            Update { render: true, command: Command::Nothing }
        },
    }
}

/// `s` with every question mark removed.
pub open spec fn without_question_marks(s: Seq<char>) -> Seq<char>
    decreases s.len(),
{
    if s.len() == 0 {
        Seq::empty()
    } else if s.last() == '?' {
        without_question_marks(s.drop_last())
    } else {
        without_question_marks(s.drop_last()).push(s.last())
    }
}

proof fn lemma_without_question_marks_filter(s: Seq<char>, keep: spec_fn(char) -> bool)
    requires
        forall|c: char| #[trigger] keep(c) == (c != '?'),
    ensures
        without_question_marks(s) == s.filter(keep),
    decreases s.len(),
{
    reveal(Seq::filter);
    if s.len() > 0 {
        lemma_without_question_marks_filter(s.drop_last(), keep);
    }
}

proof fn lemma_no_question_mark_kept(s: Seq<char>)
    requires
        !s.contains('?'),
    ensures
        without_question_marks(s) == s,
    decreases s.len(),
{
    if s.len() > 0 {
        assert(!s.drop_last().contains('?')) by {
            if s.drop_last().contains('?') {
                let k = choose|k: int| 0 <= k < s.drop_last().len() && s.drop_last()[k] == '?';
                assert(s[k] == '?');
            }
        }
        lemma_no_question_mark_kept(s.drop_last());
        assert(s[s.len() - 1] == s.last());
        assert(s.drop_last().push(s.last()) =~= s);
    }
}

proof fn lemma_result_has_no_question_mark(s: Seq<char>)
    ensures
        !without_question_marks(s).contains('?'),
    decreases s.len(),
{
    if s.len() > 0 {
        lemma_result_has_no_question_mark(s.drop_last());
        let r = without_question_marks(s.drop_last());
        if s.last() != '?' {
            assert forall|k: int| 0 <= k < r.push(s.last()).len() implies r.push(s.last())[k] != '?' by {
                if k < r.len() {
                    assert(r.push(s.last())[k] == r[k]);
                }
            }
        }
    }
}

/// Only question marks are taken out of a host name: the result is the host name
/// with every character but '?' kept, in order; a host name without '?' is kept
/// unchanged; and no '?' is left.
pub proof fn law_only_question_marks_removed(s: Seq<char>)
    ensures
        without_question_marks(s) == s.filter(|c: char| c != '?'),
        !s.contains('?') ==> without_question_marks(s) == s,
        !without_question_marks(s).contains('?'),
{
    lemma_without_question_marks_filter(s, |c: char| c != '?');
    if !s.contains('?') {
        lemma_no_question_mark_kept(s);
    }
    lemma_result_has_no_question_mark(s);
}

/// The address of the service on the host the page was loaded from.
pub open spec fn endpoint_base_of(hostname: Seq<char>) -> Seq<char> {
    "http://"@ + without_question_marks(hostname) + ":"@ + decimal(BACKEND_PORT as nat)
}

fn strip_question_marks(s: &str) -> (r: String)
    ensures
        r@ == without_question_marks(s@),
{
    let n: usize = s.unicode_len();
    let mut r = String::new();
    let mut i: usize = 0;
    proof {
        reveal_strlit("?");
    }
    while i < n
        invariant
            n == s@.len(),
            i <= n,
            r@ == without_question_marks(s@.take(i as int)),
        decreases n - i,
    {
        let c = s.get_char(i);
        proof {
            assert(s@.take(i + 1).drop_last() =~= s@.take(i as int));
            assert(s@.take(i + 1).last() == c);
        }
        if c != '?' {
            let piece = s.substring_char(i, i + 1);
            proof {
                assert(piece@ =~= seq![c]);
            }
            r.append(piece);
        }
        i = i + 1;
    }
    proof {
        assert(s@.take(n as int) =~= s@);
    }
    r
}

/// The address of the service: `http://`, the host name without question marks,
/// `:` and the service's port. `None` stands for a host name that could not be read;
/// the error then says so.
pub fn get_endpoint_base(hostname: Option<&str>) -> (r: Result<String, String>)
    ensures
        hostname matches Some(h) ==> (r matches Ok(e) && e@ == endpoint_base_of(h@)),
        hostname is None ==> (r matches Err(m)
            && m@ == "'window.location.host' could not be evaluated to a string."@),
{
    match hostname {
        None => Err(String::from_str("'window.location.host' could not be evaluated to a string.")),
        Some(h) => {
            let mut e = String::from_str("http://");
            let host = strip_question_marks(h);
            e.append(host.as_str());
            e.append(":");
            let port = decimal_string(BACKEND_PORT as u32);
            e.append(port.as_str());
            Ok(e)
        },
    }
}

/// Where the page asks for the queue.
pub fn preview_queue_endpoint(base: &str) -> (r: String)
    ensures
        r@ == base@ + "/preview_queue"@,
{
    let mut r = String::from_str(base);
    r.append("/preview_queue");
    r
}

/// Where the page sends songs to.
pub fn enqueue_endpoint(base: &str) -> (r: String)
    ensures
        r@ == base@ + "/enqueue"@,
{
    let mut r = String::from_str(base);
    r.append("/enqueue");
    r
}

/// How a request of the page to the service ended.
pub enum FetchOutcome<T> {
    /// The reply arrived and was understood.
    Received(T),
    /// The reply arrived but could not be understood; holds the parser's description.
    BadReply(String),
    /// No reply text could be read; holds the description of the failure.
    NoResponse(String),
    /// The request could not be sent; holds the description of the failure.
    NotSent(String),
}

/// The text shown for a failed request, `None` when the reply arrived.
pub open spec fn failure_text<T>(outcome: FetchOutcome<T>) -> Option<Seq<char>> {
    match outcome {
        FetchOutcome::Received(_) => None,
        FetchOutcome::BadReply(d) => Some("Failed to deserialize reply: "@ + d@),
        FetchOutcome::NoResponse(d) => Some("Failed to get a response: "@ + d@),
        FetchOutcome::NotSent(d) => Some("Failed to send request: "@ + d@),
    }
}

fn failure_message(prefix: &str, detail: &str) -> (r: Box<EnqueueRequestReply>)
    ensures
        r.error_message matches Some(m) && m@ == prefix@ + detail@,
        r.pos_in_queue is None,
        r.time_to_wait is None,
        r.song_info is None,
{
    let mut text = String::from_str(prefix);
    text.append(detail);
    Box::new(EnqueueRequestReply::from_err_msg(text.as_str()))
}

/// The event that follows a request for the queue: show the queue, or show the failure.
pub fn refresh_queue_result(outcome: FetchOutcome<MusicQueuePreview>) -> (r: Msg)
    ensures
        outcome matches FetchOutcome::Received(p) ==> r == Msg::DisplayNewQueuePreview(Box::new(p)),
        failure_text(outcome) matches Some(t) ==> (r matches Msg::DisplayEnqueueRequestReply(reply)
            && reply.error_message matches Some(m) && m@ == t
            && reply.pos_in_queue is None && reply.time_to_wait is None && reply.song_info is None),
{
    match outcome {
        FetchOutcome::Received(p) => Msg::DisplayNewQueuePreview(Box::new(p)),
        FetchOutcome::BadReply(d) => Msg::DisplayEnqueueRequestReply(failure_message("Failed to deserialize reply: ", d.as_str())),
        FetchOutcome::NoResponse(d) => Msg::DisplayEnqueueRequestReply(failure_message("Failed to get a response: ", d.as_str())),
        FetchOutcome::NotSent(d) => Msg::DisplayEnqueueRequestReply(failure_message("Failed to send request: ", d.as_str())),
    }
}

/// What the page does after the service answered a song (or failed to): the event
/// to handle, and, when the reply arrived, the event to send itself after a delay
/// (in milliseconds).
pub struct SubmitFollowUp {
    pub event: Msg,
    pub later: Option<(u32, Msg)>,
}

/// What follows sending a song: the reply, or the failure, is shown; only when the
/// reply arrived is the queue asked for again, 1.5 seconds later.
pub fn submit_result(outcome: FetchOutcome<EnqueueRequestReply>) -> (r: SubmitFollowUp)
    ensures
        outcome matches FetchOutcome::Received(reply) ==> r.event == Msg::DisplayEnqueueRequestReply(Box::new(reply)),
        outcome is Received ==> (r.later matches Some((delay, ev)) && delay == REFRESH_AFTER_SUBMIT_MS && ev is RefreshQueuePreview),
        !(outcome is Received) ==> r.later is None,
        failure_text(outcome) matches Some(t) ==> (r.event matches Msg::DisplayEnqueueRequestReply(reply)
            && reply.error_message matches Some(m) && m@ == t
            && reply.pos_in_queue is None && reply.time_to_wait is None && reply.song_info is None),
{
    match outcome {
        FetchOutcome::Received(reply) => SubmitFollowUp {
            event: Msg::DisplayEnqueueRequestReply(Box::new(reply)),
            later: Some((REFRESH_AFTER_SUBMIT_MS, Msg::RefreshQueuePreview)),
        },
        FetchOutcome::BadReply(d) => SubmitFollowUp {
            event: Msg::DisplayEnqueueRequestReply(failure_message("Failed to deserialize reply: ", d.as_str())),
            later: None,
        },
        FetchOutcome::NoResponse(d) => SubmitFollowUp {
            event: Msg::DisplayEnqueueRequestReply(failure_message("Failed to get a response: ", d.as_str())),
            later: None,
        },
        FetchOutcome::NotSent(d) => SubmitFollowUp {
            event: Msg::DisplayEnqueueRequestReply(failure_message("Failed to send request: ", d.as_str())),
            later: None,
        },
    }
}

/// How the page goes about sending a song.
pub enum SubmitPlan {
    /// The host name could not be read: nothing is sent and no event follows;
    /// `log` is what is written to the console.
    GiveUp { log: String },
    /// First `before_request` is handled (the loading screen), then `request` is
    /// sent as JSON with a POST to `endpoint`; `submit_result` tells what follows.
    Send { before_request: Msg, endpoint: String, request: EnqueueRequest },
}

/// Decides how to send the song `url`, given the host name the page was loaded
/// from (`None` when it could not be read).
pub fn run_submit(hostname: Option<&str>, url: String) -> (r: SubmitPlan)
    ensures
        hostname is None ==> (r matches SubmitPlan::GiveUp { log }
            && log@ == "'window.location.host' could not be evaluated to a string."@),
        hostname matches Some(h) ==> (r matches SubmitPlan::Send { before_request, endpoint, request }
            && before_request is ShowEnqueueProcessingScreen
            && endpoint@ == endpoint_base_of(h@) + "/enqueue"@
            && request.url == url),
{
    match get_endpoint_base(hostname) {
        Err(log) => SubmitPlan::GiveUp { log },
        Ok(base) => SubmitPlan::Send {
            before_request: Msg::ShowEnqueueProcessingScreen,
            endpoint: enqueue_endpoint(base.as_str()),
            request: EnqueueRequest { url },
        },
    }
}

/// How the page goes about asking for the queue.
pub enum RefreshPlan {
    /// The host name could not be read: nothing is sent and no event follows;
    /// `log` is what is written to the console.
    GiveUp { log: String },
    /// A GET request is sent to `endpoint`; `refresh_queue_result` tells what follows.
    Fetch { endpoint: String },
}

/// Decides how to ask for the queue, given the host name the page was loaded
/// from (`None` when it could not be read).
pub fn run_refresh_queue(hostname: Option<&str>) -> (r: RefreshPlan)
    ensures
        hostname is None ==> (r matches RefreshPlan::GiveUp { log }
            && log@ == "'window.location.host' could not be evaluated to a string."@),
        hostname matches Some(h) ==> (r matches RefreshPlan::Fetch { endpoint }
            && endpoint@ == endpoint_base_of(h@) + "/preview_queue"@),
{
    match get_endpoint_base(hostname) {
        Err(log) => RefreshPlan::GiveUp { log },
        Ok(base) => RefreshPlan::Fetch { endpoint: preview_queue_endpoint(base.as_str()) },
    }
}

/// The total playing time shown under the queue: the waiting songs added up from
/// the first, then the song playing now; `None` when it does not fit in a `u32`.
pub fn total_queue_seconds(preview: &MusicQueuePreview) -> (r: Option<u32>)
    ensures
        r matches Some(t) ==> t == page_total_seconds(preview.queue@),
        r matches Some(t) ==> t == preview.queue@.wait_seconds(),
        r is None <==> preview.queue@.wait_seconds() > u32::MAX,
{
    proof {
        law_page_total_is_wait(preview.queue@);
    }
    preview.queue.wait_seconds()
}

/// The texts of a sequence of strings.
pub open spec fn texts(v: Seq<String>) -> Seq<Seq<char>> {
    v.map_values(|s: String| s@)
}

/// The text of an optional string, empty when there is none.
pub open spec fn text_or_empty(s: Option<String>) -> Seq<char> {
    match s {
        Some(t) => t@,
        None => Seq::empty(),
    }
}

/// The card the page shows for a song: the address of its picture ("No image"
/// when it has none), the address it links to, its title (empty when unknown),
/// and its length.
pub open spec fn song_text(song: Song) -> Seq<Seq<char>> {
    seq![
        match song.thumbnail_url {
            Some(t) => t@,
            None => "No image"@,
        },
        song.url@,
        text_or_empty(song.title),
        "Długość: "@ + pretty_seconds(song_seconds(song)),
    ]
}

/// The cards of the songs, one after the other, in their order.
pub open spec fn cards_text(songs: Seq<Song>) -> Seq<Seq<char>>
    decreases songs.len(),
{
    if songs.len() == 0 {
        Seq::empty()
    } else {
        cards_text(songs.drop_last()) + song_text(songs.last())
    }
}

/// The text lines of the queue panel: nothing to show before the queue arrived;
/// otherwise the song playing now, the songs waiting, and the total length.
pub open spec fn queue_panel_text(preview: Option<MusicQueuePreview>) -> Seq<Seq<char>> {
    match preview {
        None => seq!["Nie ma nic do pokazania"@],
        Some(p) => seq!["Obecnie odtwarzane"@]
            + match p.queue.currently_played {
                Some(s) => song_text(s),
                None => seq!["Obecnie nic nie jest odtwarzane"@],
            }
            + seq!["Następnie"@]
            + (if p.queue@.waiting.len() == 0 {
                seq!["Nie ma dalej nic w kolejce"@]
            } else {
                cards_text(p.queue@.waiting)
            })
            + seq!["Całkowita długość: "@ + pretty_seconds(page_total_seconds(p.queue@))],
    }
}

/// The text lines the message area shows.
pub open spec fn message_box_text(content: MessageBoxContent) -> Seq<Seq<char>> {
    match content {
        MessageBoxContent::Nothing => Seq::empty(),
        MessageBoxContent::LoadingScreen => seq!["Ładowanie..."@],
        MessageBoxContent::EnqueueRequestReply(reply) => match reply.error_message {
            Some(e) => seq!["Wystąpił błąd:"@, e@],
            None => seq![
                "Twoja piosenka została dodana do kolejki."@,
                "Pozycja w kolejce: "@ + decimal(match reply.pos_in_queue { Some(p) => p as nat, None => 0 }),
                "Szacowany czas oczekiwania: "@ + pretty_seconds(match reply.time_to_wait { Some(t) => t as nat, None => 0 }),
            ] + match reply.song_info {
                Some(song) => song_text(song),
                None => seq!["Brak informacji o piosence"@],
            },
        },
    }
}

fn joined(prefix: &str, rest: String) -> (r: String)
    ensures
        r@ == prefix@ + rest@,
{
    let mut r = String::from_str(prefix);
    r.append(rest.as_str());
    r
}

fn push_line(lines: &mut Vec<String>, line: String)
    ensures
        texts(final(lines)@) == texts(old(lines)@).push(line@),
{
    lines.push(line);
    proof {
        assert(texts(lines@) =~= texts(old(lines)@).push(line@));
    }
}

fn append_lines(lines: &mut Vec<String>, more: Vec<String>)
    ensures
        texts(final(lines)@) == texts(old(lines)@) + texts(more@),
{
    let ghost before = lines@;
    let mut i: usize = 0;
    while i < more.len()
        invariant
            i <= more@.len(),
            texts(lines@) == texts(before) + texts(more@).take(i as int),
        decreases more@.len() - i,
    {
        push_line(lines, more[i].clone());
        proof {
            assert(texts(more@).take(i + 1) =~= texts(more@).take(i as int).push(more@[i as int]@));
        }
        i = i + 1;
    }
    proof {
        assert(texts(more@).take(more@.len() as int) =~= texts(more@));
    }
}

/// The card the page shows for a song.
pub fn song_lines(song: &Song) -> (r: Vec<String>)
    ensures
        texts(r@) == song_text(*song),
{
    let mut lines: Vec<String> = Vec::new();
    proof {
        assert(texts(lines@) =~= Seq::<Seq<char>>::empty());
    }
    let picture: String = match &song.thumbnail_url {
        Some(t) => t.clone(),
        None => String::from_str("No image"),
    };
    push_line(&mut lines, picture);
    push_line(&mut lines, song.url.clone());
    let title: String = match &song.title {
        Some(t) => t.clone(),
        None => String::new(),
    };
    push_line(&mut lines, title);
    push_line(&mut lines, joined("Długość: ", pretty_print_seconds(song.seconds() as u32)));
    proof {
        assert(texts(lines@) =~= song_text(*song));
    }
    lines
}

/// The text lines of the queue panel. The total length must fit in a `u32`.
pub fn queue_panel_lines(preview: Option<&MusicQueuePreview>) -> (r: Vec<String>)
    requires
        preview matches Some(p) ==> p.queue@.wait_seconds() <= u32::MAX,
    ensures
        texts(r@) == queue_panel_text(match preview {
            Some(p) => Some(*p),
            None => None,
        }),
{
    let mut lines: Vec<String> = Vec::new();
    proof {
        assert(texts(lines@) =~= Seq::<Seq<char>>::empty());
    }
    match preview {
        None => {
            push_line(&mut lines, String::from_str("Nie ma nic do pokazania"));
        },
        Some(p) => {
            push_line(&mut lines, String::from_str("Obecnie odtwarzane"));
            match &p.queue.currently_played {
                Some(s) => append_lines(&mut lines, song_lines(s)),
                None => push_line(&mut lines, String::from_str("Obecnie nic nie jest odtwarzane")),
            }
            push_line(&mut lines, String::from_str("Następnie"));
            let n: usize = p.queue.queue.len();
            if n == 0 {
                push_line(&mut lines, String::from_str("Nie ma dalej nic w kolejce"));
            } else {
                let ghost before = texts(lines@);
                let mut i: usize = 0;
                while i < n
                    invariant
                        n == p.queue.queue@.len(),
                        i <= n,
                        texts(lines@) == before + cards_text(p.queue.queue@.take(i as int)),
                    decreases n - i,
                {
                    append_lines(&mut lines, song_lines(&p.queue.queue[i]));
                    proof {
                        assert(p.queue.queue@.take(i + 1).drop_last() =~= p.queue.queue@.take(i as int));
                        assert(before + cards_text(p.queue.queue@.take(i + 1)) =~= before
                            + cards_text(p.queue.queue@.take(i as int)) + song_text(p.queue.queue@[i as int]));
                    }
                    i = i + 1;
                }
                proof {
                    assert(p.queue.queue@.take(n as int) =~= p.queue.queue@);
                }
            }
            let total: u32 = match total_queue_seconds(p) {
                Some(t) => t,
                None => 0,
            };
            push_line(&mut lines, joined("Całkowita długość: ", pretty_print_seconds(total)));
        },
    }
    proof {
        assert(texts(lines@) =~= queue_panel_text(match preview {
            Some(p) => Some(*p),
            None => None,
        }));
    }
    lines
}

/// The text lines the message area shows.
pub fn message_box_lines(content: &MessageBoxContent) -> (r: Vec<String>)
    ensures
        texts(r@) == message_box_text(*content),
{
    let mut lines: Vec<String> = Vec::new();
    proof {
        assert(texts(lines@) =~= Seq::<Seq<char>>::empty());
    }
    match content {
        MessageBoxContent::Nothing => {},
        MessageBoxContent::LoadingScreen => {
            push_line(&mut lines, String::from_str("Ładowanie..."));
        },
        MessageBoxContent::EnqueueRequestReply(reply) => match &reply.error_message {
            Some(e) => {
                push_line(&mut lines, String::from_str("Wystąpił błąd:"));
                push_line(&mut lines, e.clone());
            },
            None => {
                push_line(&mut lines, String::from_str("Twoja piosenka została dodana do kolejki."));
                let pos: u32 = match reply.pos_in_queue {
                    Some(p) => p,
                    None => 0,
                };
                push_line(&mut lines, joined("Pozycja w kolejce: ", decimal_string(pos)));
                let ttw: u32 = match reply.time_to_wait {
                    Some(t) => t,
                    None => 0,
                };
                push_line(&mut lines, joined("Szacowany czas oczekiwania: ", pretty_print_seconds(ttw)));
                match &reply.song_info {
                    Some(song) => {
                        append_lines(&mut lines, song_lines(song));
                    },
                    None => {
                        push_line(&mut lines, String::from_str("Brak informacji o piosence"));
                    },
                }
            },
        },
    }
    proof {
        assert(texts(lines@) =~= message_box_text(*content));
    }
    lines
}

/// A song card shows, in this order: the picture's address ("No image" when the
/// song has none), the song's URL, its title (empty when unknown), and
/// "Długość: " with its playing time (0 when unknown).
pub proof fn law_song_card(song: Song)
    ensures
        song_text(song).len() == 4,
        song_text(song)[0] == (match song.thumbnail_url {
            Some(t) => t@,
            None => "No image"@,
        }),
        song_text(song)[1] == song.url@,
        song_text(song)[2] == (match song.title {
            Some(t) => t@,
            None => Seq::<char>::empty(),
        }),
        song_text(song)[3] == "Długość: "@ + pretty_seconds(match song.duration {
            Some(d) => d as nat,
            None => 0,
        }),
{
}

/// The cards of the waiting songs come one after the other in the queue's order:
/// four lines per song, and the card at place `i` is that of the `i`-th song.
pub proof fn law_cards_in_queue_order(songs: Seq<Song>)
    ensures
        cards_text(songs).len() == 4 * songs.len(),
        forall|i: int, k: int| 0 <= i < songs.len() && 0 <= k < 4 ==>
            cards_text(songs)[4 * i + k] == #[trigger] song_text(songs[i])[k],
    decreases songs.len(),
{
    if songs.len() > 0 {
        let init = songs.drop_last();
        law_cards_in_queue_order(init);
        law_song_card(songs.last());
        assert forall|i: int, k: int| 0 <= i < songs.len() && 0 <= k < 4 implies
            cards_text(songs)[4 * i + k] == #[trigger] song_text(songs[i])[k] by {
            if i < init.len() {
                assert(songs[i] == init[i]);
                assert(cards_text(songs)[4 * i + k] == cards_text(init)[4 * i + k]);
            } else {
                assert(songs[i] == songs.last());
            }
        }
    }
}

/// The queue panel: before the queue arrived it says there is nothing to show.
/// Otherwise it starts with "Obecnie odtwarzane" and ends with the total length,
/// which is the time the service tells a guest to wait: the waiting songs plus the
/// song playing now, also when no song is waiting.
pub proof fn law_queue_panel(preview: Option<MusicQueuePreview>)
    ensures
        preview is None ==> queue_panel_text(preview) == seq!["Nie ma nic do pokazania"@],
        preview matches Some(p) ==> queue_panel_text(preview)[0] == "Obecnie odtwarzane"@,
        preview matches Some(p) ==> queue_panel_text(preview).last()
            == "Całkowita długość: "@ + pretty_seconds(p.queue@.wait_seconds()),
{
    if let Some(p) = preview {
        law_page_total_is_wait(p.queue@);
    }
}

/// The queue panel of a queue with a song playing shows that song's card right
/// after the heading; with nothing playing it says so. With no song waiting it says
/// so before the total; otherwise the waiting songs' cards, in order, come right
/// before the total.
pub proof fn law_queue_panel_parts(p: MusicQueuePreview)
    ensures
        p.queue@.playing matches Some(s) ==> queue_panel_text(Some(p)).subrange(1, 5) == song_text(s),
        p.queue@.playing is None ==> queue_panel_text(Some(p))[1] == "Obecnie nic nie jest odtwarzane"@,
        p.queue@.waiting.len() == 0 ==> queue_panel_text(Some(p))[queue_panel_text(Some(p)).len() - 2]
            == "Nie ma dalej nic w kolejce"@,
        p.queue@.waiting.len() > 0 ==> queue_panel_text(Some(p)).subrange(
            queue_panel_text(Some(p)).len() - 1 - 4 * p.queue@.waiting.len(),
            queue_panel_text(Some(p)).len() - 1,
        ) == cards_text(p.queue@.waiting),
{
    let t = queue_panel_text(Some(p));
    let current = match p.queue.currently_played {
        Some(s) => song_text(s),
        None => seq!["Obecnie nic nie jest odtwarzane"@],
    };
    let waiting = if p.queue@.waiting.len() == 0 {
        seq!["Nie ma dalej nic w kolejce"@]
    } else {
        cards_text(p.queue@.waiting)
    };
    let total = seq!["Całkowita długość: "@ + pretty_seconds(page_total_seconds(p.queue@))];
    assert(t == seq!["Obecnie odtwarzane"@] + current + seq!["Następnie"@] + waiting + total);
    law_cards_in_queue_order(p.queue@.waiting);
    if let Some(s) = p.queue@.playing {
        law_song_card(s);
        assert(t.subrange(1, 5) =~= song_text(s));
    }
    if p.queue@.waiting.len() > 0 {
        assert(t.subrange(t.len() - 1 - 4 * p.queue@.waiting.len(), t.len() - 1) =~= waiting);
    }
}

/// The message area for a reply that reports an error shows "Wystąpił błąd:" and
/// the error's text, and nothing else.
pub proof fn law_error_reply_box(reply: EnqueueRequestReply)
    requires
        reply.error_message is Some,
    ensures
        message_box_text(MessageBoxContent::EnqueueRequestReply(Box::new(reply)))
            == seq!["Wystąpił błąd:"@, reply.error_message.unwrap()@],
{
}

/// The message area for a song the service accepted: a confirmation, the position
/// in the queue, and the estimated wait as the service reported it (each 0 when
/// missing, and each independent of the other), then the song's card, or a note
/// that there is no information about the song.
pub proof fn law_accepted_reply_box(reply: EnqueueRequestReply)
    requires
        reply.error_message is None,
    ensures
        message_box_text(MessageBoxContent::EnqueueRequestReply(Box::new(reply)))[0]
            == "Twoja piosenka została dodana do kolejki."@,
        message_box_text(MessageBoxContent::EnqueueRequestReply(Box::new(reply)))[1]
            == "Pozycja w kolejce: "@ + decimal(match reply.pos_in_queue {
                Some(p) => p as nat,
                None => 0,
            }),
        message_box_text(MessageBoxContent::EnqueueRequestReply(Box::new(reply)))[2]
            == "Szacowany czas oczekiwania: "@ + pretty_seconds(match reply.time_to_wait {
                Some(t) => t as nat,
                None => 0,
            }),
        reply.song_info matches Some(s) ==> message_box_text(
            MessageBoxContent::EnqueueRequestReply(Box::new(reply)),
        ).subrange(3, 7) == song_text(s),
        reply.song_info is None ==> message_box_text(MessageBoxContent::EnqueueRequestReply(Box::new(reply)))
            == message_box_text(MessageBoxContent::EnqueueRequestReply(Box::new(reply))).subrange(0, 3)
            .push("Brak informacji o piosence"@),
        message_box_text(MessageBoxContent::EnqueueRequestReply(Box::new(reply))).len()
            == 3 + (match reply.song_info {
                Some(_) => 4nat,
                None => 1nat,
            }),
{
    let t = message_box_text(MessageBoxContent::EnqueueRequestReply(Box::new(reply)));
    if let Some(s) = reply.song_info {
        law_song_card(s);
        assert(t.subrange(3, 7) =~= song_text(s));
    } else {
        assert(t =~= t.subrange(0, 3).push("Brak informacji o piosence"@));
    }
}

/// The message area shows nothing when empty, and "Ładowanie..." while the song is
/// being sent.
pub proof fn law_message_box_idle_and_loading()
    ensures
        message_box_text(MessageBoxContent::Nothing) == Seq::<Seq<char>>::empty(),
        message_box_text(MessageBoxContent::LoadingScreen) == seq!["Ładowanie..."@],
{
}

} // verus!
