use qbit_api::error::{ApiError, Error};
use qbit_api::status::{classify, StatusOverrides};

#[test]
fn forbidden_on_a_call_is_not_logged_in() {
    let r = classify(403, &StatusOverrides::none());
    assert!(matches!(r, Some(Error::ApiError(ApiError::NotLoggedIn))));
}

#[test]
fn forbidden_under_the_login_table_is_ip_banned() {
    let r = classify(403, &StatusOverrides::login());
    assert!(matches!(r, Some(Error::ApiError(ApiError::IpBanned))));
}

#[test]
fn not_found_under_the_hash_table_is_torrent_not_found() {
    let r = classify(404, &StatusOverrides::torrent_not_found());
    assert!(matches!(r, Some(Error::ApiError(ApiError::TorrentNotFound))));
}

#[test]
fn not_found_without_a_table_is_unknown() {
    let r = classify(404, &StatusOverrides::none());
    assert!(matches!(r, Some(Error::UnknownHttpCode(404))));
}

#[test]
fn unmapped_status_is_unknown_with_its_code() {
    let r = classify(418, &StatusOverrides::torrent_not_found());
    match r {
        Some(e) => {
            assert!(matches!(e, Error::UnknownHttpCode(418)));
            assert_eq!(e.message(), "API returned unknown status code: 418");
        }
        None => panic!("418 must classify as a failure"),
    }
}

#[test]
fn success_is_never_a_failure() {
    let table = StatusOverrides::none().with(200, ApiError::TorrentNotFound);
    assert!(classify(200, &table).is_none());
    assert!(classify(204, &StatusOverrides::none()).is_none());
    assert!(classify(299, &StatusOverrides::none()).is_none());
}

#[test]
fn statuses_next_to_success_are_failures() {
    assert!(matches!(
        classify(199, &StatusOverrides::none()),
        Some(Error::UnknownHttpCode(199))
    ));
    assert!(matches!(
        classify(300, &StatusOverrides::none()),
        Some(Error::UnknownHttpCode(300))
    ));
    assert!(matches!(
        classify(500, &StatusOverrides::none()),
        Some(Error::UnknownHttpCode(500))
    ));
}

#[test]
fn table_entry_wins_over_the_default() {
    let table = StatusOverrides::none().with(403, ApiError::TorrentNotFound);
    assert!(matches!(
        classify(403, &table),
        Some(Error::ApiError(ApiError::TorrentNotFound))
    ));
}

#[test]
fn later_entry_replaces_earlier_one() {
    let table = StatusOverrides::none()
        .with(404, ApiError::IpBanned)
        .with(409, ApiError::NotLoggedIn)
        .with(404, ApiError::TorrentNotFound);
    assert_eq!(table.get(404), Some(ApiError::TorrentNotFound));
    assert_eq!(table.get(409), Some(ApiError::NotLoggedIn));
    assert_eq!(table.get(500), None);
}

#[test]
fn api_error_messages() {
    assert_eq!(
        ApiError::IpBanned.message(),
        "User's IP is banned for too many failed login attempts"
    );
    assert_eq!(ApiError::NotLoggedIn.message(), "API routes requires login, try again");
    assert_eq!(ApiError::TorrentNotFound.message(), "Torrent not found");
}

#[test]
fn error_messages() {
    assert_eq!(
        Error::BadResponse { explain: "why" }.message(),
        "API Returned bad response: why"
    );
    assert_eq!(Error::UnknownHttpCode(0).message(), "API returned unknown status code: 0");
    assert_eq!(Error::ApiError(ApiError::TorrentNotFound).message(), "Torrent not found");
    assert_eq!(Error::from(ApiError::IpBanned).message(), ApiError::IpBanned.message());
}

#[test]
fn transport_error_message_holds_the_transport_text() {
    let failure = http_client::Error::from_str(
        http_client::http_types::StatusCode::InternalServerError,
        "connection refused",
    );
    let e = Error::from(failure);
    assert!(matches!(e, Error::HttpError(_)));
    assert_eq!(e.message(), "Http error: connection refused");
}
