//! Verified core of a party music-queue service: guests enqueue songs,
//! the service plays them in order through external hooks, and a web page
//! shows the queue.

pub mod compiled_pattern;
pub mod consts;
pub mod error;
pub mod hook_runner;
pub mod music_queue;
pub mod reply;
pub mod service;
pub mod song;
pub mod text;
pub mod util;
pub mod website;

pub use consts::{
    BACKEND_PORT, DEFAULT_HOOK_DIR, HOOK_DIR_ENVVAR, HOOK_URL_ENVVAR, LENGTH_LIMIT_SECONDS,
    YOUTUBE_URL_REGEX, YTDLP_COMMAND,
};
pub use error::EnqueueError;
pub use hook_runner::HookRunner;
pub use music_queue::{MusicQueue, MusicQueueExt, MusicQueuePreview, QueueState};
pub use reply::{EnqueueRequest, EnqueueRequestReply};
pub use service::{handle_enqueue, EnqueueAnswer};
pub use song::{Song, SongExt, ValidationError, YtDlpError};
pub use text::{decimal_string, pretty_print_seconds};
pub use compiled_pattern::CompiledPattern;
pub use util::{anyhow_error_to_stdio_error, sanitize, try_sanitize};
pub use website::{
    get_endpoint_base, init, run_refresh_queue, run_submit, update, Command, FetchOutcome,
    MessageBoxContent, Model, Msg, RefreshPlan, Startup, SubmitFollowUp, SubmitPlan, Update,
};
