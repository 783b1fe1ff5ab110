use vstd::prelude::*;

verus! {

/// Port the service listens on.
pub const BACKEND_PORT: u16 = 8090;

/// Environment variable through which a hook learns the URL of the song to play.
pub const HOOK_URL_ENVVAR: &'static str = "KANTYNA_LASER_URL";

/// Environment variable naming the directory the hooks are loaded from.
pub const HOOK_DIR_ENVVAR: &'static str = "KANTYNA_LASER_HOOK_DIR";

/// Hook directory used when `HOOK_DIR_ENVVAR` is not set.
pub const DEFAULT_HOOK_DIR: &'static str = "./hooks";

/// Program that fetches song details.
pub const YTDLP_COMMAND: &'static str = "yt-dlp";

/// Pattern of the URLs accepted as YouTube URLs.
pub const YOUTUBE_URL_REGEX: &'static str = r#"^(http(s)??://)?(www\.)?((youtube\.com/watch\?v=)|(youtu\.be/))([a-zA-Z0-9\-_])+"#;

/// 25 minutes
pub const LENGTH_LIMIT_SECONDS: u16 = 1500;

} // verus!
