//! Talking to Cider's RPC server: where each request goes, and how the
//! answer to the now-playing query is read.

pub mod types;

use vstd::prelude::*;
use crate::cider::types::{NowPlayingInfo, NowPlayingResponse};

verus! {

/// Where Cider's RPC server listens.
pub const CIDER_BASE_URL: &'static str = "http://localhost:10767";

/// Seconds before an HTTP request to Cider times out.
pub const REQUEST_TIMEOUT_SECS: u64 = 5;

/// The HTTP header that carries the RPC token.
pub const TOKEN_HEADER: &'static str = "apptoken";

/// The server address a client starts with.
pub open spec fn default_base_url() -> Seq<char> {
    "http://localhost:10767"@
}

/// The path under which the playback endpoints live.
pub open spec fn playback_prefix() -> Seq<char> {
    "/api/v1/playback/"@
}

/// HTTP methods the bridge uses.
#[derive(Debug, Clone, Copy, PartialEq, Eq, Structural)]
pub enum HttpMethod {
    Get,
    Post,
}

/// The playback endpoints the bridge calls.
#[derive(Debug, Clone, Copy, PartialEq, Eq, Structural)]
pub enum Endpoint {
    IsPlaying,
    NowPlaying,
    Play,
    Pause,
    PlayPause,
    Next,
    Previous,
    Seek,
    ToggleRepeat,
    ToggleShuffle,
}

impl Endpoint {
    /// The endpoint's path below the playback prefix.
    pub open spec fn path_name(self) -> Seq<char> {
        match self {
            Endpoint::IsPlaying => "is-playing"@,
            Endpoint::NowPlaying => "now-playing"@,
            Endpoint::Play => "play"@,
            Endpoint::Pause => "pause"@,
            Endpoint::PlayPause => "playpause"@,
            Endpoint::Next => "next"@,
            Endpoint::Previous => "previous"@,
            Endpoint::Seek => "seek"@,
            Endpoint::ToggleRepeat => "toggle-repeat"@,
            Endpoint::ToggleShuffle => "toggle-shuffle"@,
        }
    }

    pub fn path(&self) -> (p: &'static str)
        ensures
            p@ == self.path_name(),
    {
        match self {
            Endpoint::IsPlaying => "is-playing",
            Endpoint::NowPlaying => "now-playing",
            Endpoint::Play => "play",
            Endpoint::Pause => "pause",
            Endpoint::PlayPause => "playpause",
            Endpoint::Next => "next",
            Endpoint::Previous => "previous",
            Endpoint::Seek => "seek",
            Endpoint::ToggleRepeat => "toggle-repeat",
            Endpoint::ToggleShuffle => "toggle-shuffle",
        }
    }

    /// The two queries are `GET`s; every command is a `POST`.
    pub open spec fn spec_method(self) -> HttpMethod {
        match self {
            Endpoint::IsPlaying | Endpoint::NowPlaying => HttpMethod::Get,
            _ => HttpMethod::Post,
        }
    }

    pub fn method(&self) -> (m: HttpMethod)
        ensures
            m == self.spec_method(),
    {
        match self {
            Endpoint::IsPlaying | Endpoint::NowPlaying => HttpMethod::Get,
            _ => HttpMethod::Post,
        }
    }
}

/// The MPRIS player methods and property writes that become a Cider command.
#[derive(Debug, Clone, Copy, PartialEq, Eq, Structural)]
pub enum PlayerCommand {
    Next,
    Previous,
    Pause,
    PlayPause,
    Stop,
    Play,
    /// A write of `LoopStatus`: Cider can only step its repeat mode.
    SetLoopStatus,
    /// A write of `Shuffle`: Cider can only toggle shuffle.
    SetShuffle,
}

/// The endpoint each command calls. `Stop` pauses, since stopping in Cider
/// would drop the current item.
pub open spec fn spec_command_endpoint(c: PlayerCommand) -> Endpoint {
    match c {
        PlayerCommand::Next => Endpoint::Next,
        PlayerCommand::Previous => Endpoint::Previous,
        PlayerCommand::Pause => Endpoint::Pause,
        PlayerCommand::PlayPause => Endpoint::PlayPause,
        PlayerCommand::Stop => Endpoint::Pause,
        PlayerCommand::Play => Endpoint::Play,
        PlayerCommand::SetLoopStatus => Endpoint::ToggleRepeat,
        PlayerCommand::SetShuffle => Endpoint::ToggleShuffle,
    }
}

pub fn command_endpoint(c: PlayerCommand) -> (e: Endpoint)
    ensures
        e == spec_command_endpoint(c),
{
    match c {
        PlayerCommand::Next => Endpoint::Next,
        PlayerCommand::Previous => Endpoint::Previous,
        PlayerCommand::Pause => Endpoint::Pause,
        PlayerCommand::PlayPause => Endpoint::PlayPause,
        PlayerCommand::Stop => Endpoint::Pause,
        PlayerCommand::Play => Endpoint::Play,
        PlayerCommand::SetLoopStatus => Endpoint::ToggleRepeat,
        PlayerCommand::SetShuffle => Endpoint::ToggleShuffle,
    }
}

/// Where and with what token the bridge reaches Cider.
pub struct CiderClient {
    base_url: String,
    token: String,
}

impl CiderClient {
    pub closed spec fn spec_base_url(self) -> Seq<char> {
        self.base_url@
    }

    pub closed spec fn spec_token(self) -> Seq<char> {
        self.token@
    }

    /// A client of the local Cider server, authenticating with `token`.
    pub fn new(token: String) -> (c: CiderClient)
        ensures
            c.spec_base_url() == default_base_url(),
            c.spec_token() == token@,
    {
        CiderClient { base_url: String::from_str("http://localhost:10767"), token }
    }

    pub fn base_url(&self) -> (u: &str)
        ensures
            u@ == self.spec_base_url(),
    {
        self.base_url.as_str()
    }

    /// The token sent in the [`TOKEN_HEADER`] header of every request.
    pub fn token(&self) -> (t: &str)
        ensures
            t@ == self.spec_token(),
    {
        self.token.as_str()
    }

    /// The URL of an endpoint: the server address, the playback prefix and
    /// the endpoint's path.
    pub open spec fn spec_url(self, e: Endpoint) -> Seq<char> {
        self.spec_base_url() + playback_prefix() + e.path_name()
    }

    pub fn url(&self, e: Endpoint) -> (u: String)
        ensures
            u@ == self.spec_url(e),
    {
        let mut u = self.base_url.clone();
        u.append("/api/v1/playback/");
        u.append(e.path());
        u
    }
}

/// Declares `reqwest::Error` so that failed requests can be carried through;
/// its values are opaque.
#[verifier::external_type_specification]
#[verifier::external_body]
pub struct ExReqwestError(reqwest::Error);

/// A failed exchange with Cider.
#[derive(Debug)]
pub enum ClientError {
    Reqwest(reqwest::Error),
}

impl From<reqwest::Error> for ClientError {
    fn from(e: reqwest::Error) -> (r: ClientError) {
        ClientError::Reqwest(e)
    }
}

/// What `ClientError::from` returns: the error, wrapped.
impl vstd::std_specs::convert::FromSpecImpl<reqwest::Error> for ClientError {
    open spec fn obeys_from_spec() -> bool {
        true
    }

    open spec fn from_spec(e: reqwest::Error) -> ClientError {
        ClientError::Reqwest(e)
    }
}

/// Whether a request failed while connecting, as `reqwest::Error::is_connect`
/// answers it. The answer depends on the error alone (its chain of
/// sources), so it is named here; nothing more is said of it.
pub uninterp spec fn connect_failure(e: reqwest::Error) -> bool;

/// Calls `reqwest::Error::is_connect`: whether the error arose while
/// connecting, named [`connect_failure`].
#[verifier::external_body]
fn is_connect_error(e: &reqwest::Error) -> (connect: bool)
    ensures
        connect == connect_failure(*e),
{
    e.is_connect()
}

/// How the now-playing query went.
#[derive(Debug)]
pub enum NowPlayingReply {
    /// The server answered `204 No Content`.
    NoContent,
    /// The server answered with a body: the record it held, or `None` when
    /// it did not read as a now-playing record.
    Body(Option<NowPlayingResponse>),
    /// The request failed.
    Failed(reqwest::Error),
}

/// Whether an HTTP status tells that there is no body to read: `204`.
pub fn is_no_content(status: u16) -> (none: bool)
    ensures
        none == (status == 204),
{
    status == 204
}

/// The answer to a failed now-playing query: Cider not listening
/// (`connect`) counts as nothing playing; any other failure is an error.
pub fn now_playing_after_failure(e: reqwest::Error, connect: bool) -> (r: Result<Option<NowPlayingInfo>, ClientError>)
    ensures
        r == (if connect { Ok(None::<NowPlayingInfo>) } else { Err(ClientError::Reqwest(e)) }),
{
    if connect {
        Ok(None)
    } else {
        Err(ClientError::Reqwest(e))
    }
}

/// What is playing, read from the now-playing reply: nothing for `204`,
/// the record's track for a body that read as one, nothing for one that did
/// not (an incomplete answer); a failed request counts as nothing playing
/// when it failed while connecting, and is an error otherwise.
pub fn now_playing_from(reply: NowPlayingReply) -> (r: Result<Option<NowPlayingInfo>, ClientError>)
    ensures
        match reply {
            NowPlayingReply::NoContent => r == Ok::<Option<NowPlayingInfo>, ClientError>(None),
            NowPlayingReply::Body(Some(resp)) => r == Ok::<Option<NowPlayingInfo>, ClientError>(Some(resp.info)),
            NowPlayingReply::Body(None) => r == Ok::<Option<NowPlayingInfo>, ClientError>(None),
            NowPlayingReply::Failed(e) => r == (if connect_failure(e) {
                Ok::<Option<NowPlayingInfo>, ClientError>(None)
            } else {
                Err::<Option<NowPlayingInfo>, ClientError>(ClientError::Reqwest(e))
            }),
        },
{
    match reply {
        NowPlayingReply::NoContent => Ok(None),
        NowPlayingReply::Body(Some(resp)) => Ok(Some(resp.info)),
        NowPlayingReply::Body(None) => Ok(None),
        NowPlayingReply::Failed(e) => {
            let connect = is_connect_error(&e);
            now_playing_after_failure(e, connect)
        },
    }
}

} // verus!
