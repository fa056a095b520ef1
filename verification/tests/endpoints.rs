use qbit_api::codec::{Arg, Hashes, Query, Scalar};
use qbit_api::error::ApiError;
use qbit_api::error::Error;
use qbit_api::pipeline::{Api, Call, Decode, Method, Payload, Reply, Step};
use qbit_api::session::Credential;

fn client() -> Api {
    let credential = Credential { username: "u".to_string(), password: "p".to_string() };
    Api::new("http://localhost:8080", credential).unwrap()
}

fn pairs(call: &Call) -> Vec<(String, String)> {
    match &call.query {
        Some(q) => q.fields.iter().map(|f| (f.key.clone(), f.value.clone())).collect(),
        None => Vec::new(),
    }
}

fn pair(key: &str, value: &str) -> (String, String) {
    (key.to_string(), value.to_string())
}

#[test]
fn plain_reads_have_no_arguments() {
    let api = client();
    let calls = vec![
        (api.logout(), "auth/logout", Decode::Discard),
        (api.get_version(), "app/version", Decode::Text),
        (api.get_webapi_version(), "app/webapiVersion", Decode::Text),
        (api.get_build_info(), "app/buildInfo", Decode::Json),
        (api.get_preferences(), "app/preferences", Decode::Json),
        (api.get_default_save_path(), "app/defaultSavePath", Decode::Text),
        (api.get_transfer_info(), "transfer/info", Decode::Json),
        (api.get_speed_limits_mode(), "transfer/speedLimitsMode", Decode::Flag),
        (api.toggle_speed_limits_mode(), "transfer/toggleSpeedLimitsMode", Decode::Discard),
        (api.get_download_limit(), "transfer/downloadLimit", Decode::Number),
        (api.get_upload_limit(), "transfer/uploadLimit", Decode::Number),
    ];
    for (call, path, decode) in calls {
        assert_eq!(call.method, Method::Get);
        assert_eq!(call.path, path);
        assert!(call.query.is_none());
        assert!(call.body.is_none());
        assert_eq!(call.decode, decode);
        assert_eq!(call.overrides.get(404), None);
    }
}

#[test]
fn set_preferences_posts_the_document() {
    let call = client().set_preferences("{\"a\":1}".to_string());
    assert_eq!(call.method, Method::Post);
    assert_eq!(call.path, "app/setPreferences");
    assert!(call.query.is_none());
    assert_eq!(call.body, Some("{\"a\":1}".to_string()));
    assert_eq!(call.decode, Decode::Discard);
}

#[test]
fn logs_and_torrent_list_take_a_ready_query() {
    let api = client();
    let arg = Query::new().with("normal", &Arg::Scalar(Scalar::Flag(true)));
    let call = api.get_logs(arg);
    assert_eq!(call.path, "log/main");
    assert_eq!(pairs(&call), vec![pair("normal", "true")]);
    let arg = Query::new().with("filter", &Arg::Scalar(Scalar::Text("paused".to_string())));
    let call = api.get_torrent_list(arg);
    assert_eq!(call.path, "torrents/info");
    assert_eq!(pairs(&call), vec![pair("filter", "paused")]);
    assert_eq!(call.decode, Decode::Json);
}

#[test]
fn optional_ids_are_left_out_when_absent() {
    let api = client();
    let call = api.get_peer_logs(None);
    assert_eq!(call.path, "log/peers");
    assert!(call.query.is_some());
    assert_eq!(pairs(&call), Vec::new());
    let call = api.get_peer_logs(Some(12));
    assert_eq!(pairs(&call), vec![pair("last_known_id", "12")]);
    let call = api.sync(None);
    assert_eq!(call.path, "sync/maindata");
    assert_eq!(pairs(&call), Vec::new());
    let call = api.sync(Some(-1));
    assert_eq!(pairs(&call), vec![pair("rid", "-1")]);
}

#[test]
fn hash_scoped_calls_carry_the_not_found_table() {
    let api = client();
    let calls = vec![
        (api.get_torrent_peers("h", None), "sync/torrentPeers"),
        (api.get_torrent_properties("h"), "torrents/properties"),
        (api.get_torrent_trackers("h"), "torrents/trackers"),
        (api.get_torrent_web_seeds("h"), "torrents/webseeds"),
        (api.get_torrent_contents("h", None), "torrents/files"),
        (api.get_torrent_pieces_states("h"), "torrents/pieceStates"),
        (api.get_torrent_pieces_hashes("h"), "torrents/pieceHashes"),
    ];
    for (call, path) in calls {
        assert_eq!(call.method, Method::Get);
        assert_eq!(call.path, path);
        assert_eq!(pairs(&call), vec![pair("hash", "h")]);
        assert_eq!(call.overrides.get(404), Some(ApiError::TorrentNotFound));
        assert_eq!(call.overrides.get(403), None);
        assert_eq!(call.decode, Decode::Json);
    }
}

#[test]
fn torrent_contents_joins_indexes_with_pipe() {
    let api = client();
    let call = api.get_torrent_contents("h", Some(vec!["0".to_string(), "3".to_string()]));
    assert_eq!(pairs(&call), vec![pair("hash", "h"), pair("indexes", "0|3")]);
    let call = api.get_torrent_contents("h", Some(Vec::new()));
    assert_eq!(pairs(&call), vec![pair("hash", "h"), pair("indexes", "")]);
}

#[test]
fn limits_are_written_in_decimal() {
    let api = client();
    let call = api.set_download_limit(0);
    assert_eq!(call.path, "transfer/setDownloadLimit");
    assert_eq!(pairs(&call), vec![pair("limit", "0")]);
    let call = api.set_upload_limit(u64::MAX);
    assert_eq!(call.path, "transfer/setUploadLimit");
    assert_eq!(pairs(&call), vec![pair("limit", "18446744073709551615")]);
    assert_eq!(call.decode, Decode::Discard);
}

#[test]
fn ban_peers_joins_with_pipe() {
    let api = client();
    let call = api.ban_peers(vec!["1.2.3.4:5".to_string(), "6.7.8.9:10".to_string()]);
    assert_eq!(call.path, "transfer/banPeers");
    assert_eq!(pairs(&call), vec![pair("peers", "1.2.3.4:5|6.7.8.9:10")]);
    let call = api.ban_peers(Vec::new());
    assert_eq!(pairs(&call), vec![pair("peers", "")]);
}

#[test]
fn torrent_sets_use_the_hash_set_rule() {
    let api = client();
    let call = api.pause_torrents(Hashes::All);
    assert_eq!(call.path, "torrents/pause");
    assert_eq!(pairs(&call), vec![pair("hashes", "all")]);
    let call = api.resume_torrents(Hashes::Hashes(vec!["a".to_string(), "b".to_string()]));
    assert_eq!(call.path, "torrents/resume");
    assert_eq!(pairs(&call), vec![pair("hashes", "a|b")]);
    let call = api.delete_torrents(Hashes::Hashes(Vec::new()), None);
    assert_eq!(call.path, "torrents/delete");
    assert_eq!(pairs(&call), vec![pair("hashes", "")]);
    let call = api.delete_torrents(Hashes::All, Some(false));
    assert_eq!(pairs(&call), vec![pair("hashes", "all"), pair("delete_files", "false")]);
}

#[test]
fn torrent_set_calls_discard_the_body() {
    let api = client();
    let hashes = || Hashes::Hashes(vec!["h1".to_string(), "h2".to_string()]);
    let calls = vec![
        api.pause_torrents(hashes()),
        api.resume_torrents(hashes()),
        api.delete_torrents(hashes(), Some(true)),
    ];
    for call in calls {
        assert_eq!(call.method, Method::Get);
        assert_eq!(call.decode, Decode::Discard);
        assert_eq!(call.explain, "");
        assert!(!call.reads_body());
        assert_eq!(call.overrides.get(404), None);
        assert!(call.accept(Reply::Answered { status: 200, headers: Vec::new() }).is_ok());
        assert!(matches!(call.decode(String::new()), Ok(Payload::Nothing)));
        assert!(matches!(call.decode("not json".to_string()), Ok(Payload::Nothing)));
    }
}

#[test]
fn pausing_two_torrents_with_an_empty_answer_succeeds() {
    let api = Api::new_with_cookie("http://localhost:8080/", "SID=abc".to_string()).unwrap();
    let call = api.pause_torrents(Hashes::Hashes(vec!["h1".to_string(), "h2".to_string()]));
    match api.request(&call) {
        Some(Step::Dispatch(request)) => {
            assert_eq!(request.method, Method::Get);
            assert_eq!(request.url, "http://localhost:8080/api/v2/torrents/pause");
            assert_eq!(request.cookie, Some("SID=abc".to_string()));
            let query = request.query.unwrap();
            assert_eq!(query.fields.len(), 1);
            assert_eq!(query.get("hashes"), Some("h1|h2".to_string()));
        }
        other => panic!("expected the call's request, got {:?}", other),
    }
    assert!(call.accept(Reply::Answered { status: 200, headers: Vec::new() }).is_ok());
    assert!(matches!(call.decode(String::new()), Ok(Payload::Nothing)));
}

#[test]
fn void_calls_still_fail_on_a_bad_status() {
    let api = client();
    let call = api.delete_torrents(Hashes::All, None);
    assert!(matches!(
        call.accept(Reply::Answered { status: 500, headers: Vec::new() }),
        Err(Error::UnknownHttpCode(500))
    ));
}

#[test]
fn only_discarding_calls_skip_the_body() {
    let api = client();
    assert!(!api.logout().reads_body());
    assert!(!api.toggle_speed_limits_mode().reads_body());
    assert!(!api.ban_peers(Vec::new()).reads_body());
    assert!(!api.set_download_limit(1).reads_body());
    assert!(api.get_version().reads_body());
    assert!(api.get_build_info().reads_body());
    assert!(api.get_speed_limits_mode().reads_body());
    assert!(api.get_download_limit().reads_body());
}
