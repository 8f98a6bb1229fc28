use cider_mpris::cider::types::{NowPlayingInfo, NowPlayingResponse};
use cider_mpris::cider::{
    command_endpoint, is_no_content, now_playing_after_failure, now_playing_from, ClientError,
    CiderClient, Endpoint, HttpMethod, NowPlayingReply, PlayerCommand, CIDER_BASE_URL,
    REQUEST_TIMEOUT_SECS, TOKEN_HEADER,
};

fn sample() -> NowPlayingInfo {
    NowPlayingInfo {
        name: "Like Water (feat. MNDR)".to_string(),
        artist_name: "Flume".to_string(),
        album_name: "Skin".to_string(),
        duration_in_millis: 193_633,
        current_playback_time_us: 2_066_576,
        artwork: None,
        repeat_mode: 0,
        shuffle_mode: 0,
    }
}

fn builder_error() -> reqwest::Error {
    reqwest::Client::new().get("not a url").build().unwrap_err()
}

#[test]
fn client_configuration() {
    let c = CiderClient::new("secret".to_string());
    assert_eq!(c.base_url(), "http://localhost:10767");
    assert_eq!(c.base_url(), CIDER_BASE_URL);
    assert_eq!(c.token(), "secret");
    assert_eq!(TOKEN_HEADER, "apptoken");
    assert_eq!(REQUEST_TIMEOUT_SECS, 5);
}

#[test]
fn endpoint_urls() {
    let c = CiderClient::new("t".to_string());
    let cases = [
        (Endpoint::IsPlaying, "is-playing", HttpMethod::Get),
        (Endpoint::NowPlaying, "now-playing", HttpMethod::Get),
        (Endpoint::Play, "play", HttpMethod::Post),
        (Endpoint::Pause, "pause", HttpMethod::Post),
        (Endpoint::PlayPause, "playpause", HttpMethod::Post),
        (Endpoint::Next, "next", HttpMethod::Post),
        (Endpoint::Previous, "previous", HttpMethod::Post),
        (Endpoint::Seek, "seek", HttpMethod::Post),
        (Endpoint::ToggleRepeat, "toggle-repeat", HttpMethod::Post),
        (Endpoint::ToggleShuffle, "toggle-shuffle", HttpMethod::Post),
    ];
    for (e, path, method) in cases {
        assert_eq!(e.path(), path);
        assert_eq!(e.method(), method);
        assert_eq!(c.url(e), format!("http://localhost:10767/api/v1/playback/{}", path));
    }
}

#[test]
fn commands_map_to_endpoints() {
    assert_eq!(command_endpoint(PlayerCommand::Next), Endpoint::Next);
    assert_eq!(command_endpoint(PlayerCommand::Previous), Endpoint::Previous);
    assert_eq!(command_endpoint(PlayerCommand::Pause), Endpoint::Pause);
    assert_eq!(command_endpoint(PlayerCommand::PlayPause), Endpoint::PlayPause);
    assert_eq!(command_endpoint(PlayerCommand::Stop), Endpoint::Pause);
    assert_eq!(command_endpoint(PlayerCommand::Play), Endpoint::Play);
    assert_eq!(command_endpoint(PlayerCommand::SetLoopStatus), Endpoint::ToggleRepeat);
    assert_eq!(command_endpoint(PlayerCommand::SetShuffle), Endpoint::ToggleShuffle);
}

#[test]
fn no_content_status() {
    assert!(is_no_content(204));
    assert!(!is_no_content(200));
    assert!(!is_no_content(404));
}

#[test]
fn now_playing_from_replies() {
    assert!(matches!(now_playing_from(NowPlayingReply::NoContent), Ok(None)));
    assert!(matches!(now_playing_from(NowPlayingReply::Body(None)), Ok(None)));
    let r = now_playing_from(NowPlayingReply::Body(Some(NowPlayingResponse { info: sample() })));
    match r {
        Ok(Some(i)) => {
            assert_eq!(i.name, "Like Water (feat. MNDR)");
            assert_eq!(i.duration_in_millis, 193_633);
        }
        other => panic!("unexpected {:?}", other),
    }
}

#[test]
fn failure_while_connecting_means_nothing_playing() {
    assert!(matches!(now_playing_after_failure(builder_error(), true), Ok(None)));
}

#[test]
fn other_failures_are_errors() {
    assert!(matches!(
        now_playing_after_failure(builder_error(), false),
        Err(ClientError::Reqwest(_))
    ));
    // A request that could not be built is no connection failure.
    assert!(matches!(
        now_playing_from(NowPlayingReply::Failed(builder_error())),
        Err(ClientError::Reqwest(_))
    ));
}

#[test]
fn refused_connection_reads_as_nothing_playing() {
    let rt = tokio::runtime::Builder::new_current_thread().enable_all().build().unwrap();
    let err = rt.block_on(async {
        reqwest::Client::new()
            .get("http://127.0.0.1:9/api/v1/playback/now-playing")
            .send()
            .await
            .unwrap_err()
    });
    assert!(matches!(now_playing_from(NowPlayingReply::Failed(err)), Ok(None)));
}

#[test]
fn client_error_from_reqwest_error() {
    let e: ClientError = builder_error().into();
    assert!(matches!(e, ClientError::Reqwest(_)));
}

#[test]
fn refused_connection_reads_as_nothing_playing_directly() {
    let rt = tokio::runtime::Builder::new_current_thread().enable_all().build().unwrap();
    let err = rt.block_on(async {
        reqwest::Client::new().get("http://127.0.0.1:9/").send().await.unwrap_err()
    });
    assert!(err.is_connect());
    assert!(matches!(now_playing_after_failure(err, true), Ok(None)));
}
