//! The endpoint layer: each operation as a call.
//!
//! An operation is a path, a method, its arguments run through the codec, the
//! status overrides it needs and the way its answer is decoded.

use vstd::prelude::*;
use crate::codec::{extended, joined, texts, Arg, Hashes, Query, Scalar, Separator};
use crate::pipeline::{Api, Call, Decode, Method};
use crate::status::{not_found_table, StatusOverrides};
use crate::text::{decimal, flag_text, signed_decimal};

verus! {

/// The decimal text of an optional number.
pub open spec fn number_text(n: Option<i64>) -> Option<Seq<char>> {
    match n {
        Some(n) => Some(signed_decimal(n as int)),
        None => None,
    }
}

/// The text of an optional boolean.
pub open spec fn optional_flag_text(b: Option<bool>) -> Option<Seq<char>> {
    match b {
        Some(b) => Some(flag_text(b)),
        None => None,
    }
}

/// The joined text of an optional list.
pub open spec fn list_text(items: Option<Vec<String>>, sep: Separator) -> Option<Seq<char>> {
    match items {
        Some(items) => Some(joined(texts(items@), sep.text())),
        None => None,
    }
}

/// The fields of a query before any is added.
pub open spec fn no_fields() -> Seq<(Seq<char>, Seq<char>)> {
    Seq::empty()
}

fn int_scalar(n: Option<i64>) -> (r: Option<Scalar>)
    ensures
        Arg::OptionalScalar(r).encoded() == number_text(n),
{
    match n {
        Some(n) => Some(Scalar::Int(n)),
        None => None,
    }
}

fn flag_scalar(b: Option<bool>) -> (r: Option<Scalar>)
    ensures
        Arg::OptionalScalar(r).encoded() == optional_flag_text(b),
{
    match b {
        Some(b) => Some(Scalar::Flag(b)),
        None => None,
    }
}

impl Api {
    /// Ends the session.
    pub fn logout(&self) -> (call: Call)
        ensures
            call.shaped(
                Method::Get,
                "auth/logout"@,
                None,
                None,
                Map::empty(),
                Decode::Discard,
                ""@,
            ),
    {
        Call::get("auth/logout", None)
    }

    /// The daemon's version, as text.
    pub fn get_version(&self) -> (call: Call)
        ensures
            call.shaped(
                Method::Get,
                "app/version"@,
                None,
                None,
                Map::empty(),
                Decode::Text,
                ""@,
            ),
    {
        Call::get("app/version", None).expecting(Decode::Text, "")
    }

    /// The version of the control API, as text.
    pub fn get_webapi_version(&self) -> (call: Call)
        ensures
            call.shaped(
                Method::Get,
                "app/webapiVersion"@,
                None,
                None,
                Map::empty(),
                Decode::Text,
                ""@,
            ),
    {
        Call::get("app/webapiVersion", None).expecting(Decode::Text, "")
    }

    /// The daemon's build information, as JSON.
    pub fn get_build_info(&self) -> (call: Call)
        ensures
            call.shaped(
                Method::Get,
                "app/buildInfo"@,
                None,
                None,
                Map::empty(),
                Decode::Json,
                "Received malformed JSON response body"@,
            ),
    {
        Call::get("app/buildInfo", None).expecting(Decode::Json, "Received malformed JSON response body")
    }

    /// The daemon's preferences, as JSON.
    pub fn get_preferences(&self) -> (call: Call)
        ensures
            call.shaped(
                Method::Get,
                "app/preferences"@,
                None,
                None,
                Map::empty(),
                Decode::Json,
                "Received malformed JSON response body"@,
            ),
    {
        Call::get("app/preferences", None).expecting(Decode::Json, "Received malformed JSON response body")
    }

    /// Sets preferences from a JSON document.
    pub fn set_preferences(&self, preferences: String) -> (call: Call)
        ensures
            call.shaped(
                Method::Post,
                "app/setPreferences"@,
                None,
                Some(preferences@),
                Map::empty(),
                Decode::Discard,
                ""@,
            ),
    {
        Call::post("app/setPreferences", None, Some(preferences))
    }

    /// The default save path, as text.
    pub fn get_default_save_path(&self) -> (call: Call)
        ensures
            call.shaped(
                Method::Get,
                "app/defaultSavePath"@,
                None,
                None,
                Map::empty(),
                Decode::Text,
                ""@,
            ),
    {
        Call::get("app/defaultSavePath", None).expecting(Decode::Text, "")
    }

    /// The main log, as JSON; `arg` holds the filter's fields.
    pub fn get_logs(&self, arg: Query) -> (call: Call)
        ensures
            call.shaped(
                Method::Get,
                "log/main"@,
                Some(arg@),
                None,
                Map::empty(),
                Decode::Json,
                "Received malformed JSON response body"@,
            ),
    {
        Call::get("log/main", Some(arg)).expecting(Decode::Json, "Received malformed JSON response body")
    }

    /// The peer log after `last_known_id`, as JSON.
    pub fn get_peer_logs(&self, last_known_id: Option<i64>) -> (call: Call)
        ensures
            call.shaped(
                Method::Get,
                "log/peers"@,
                Some(extended(no_fields(), "last_known_id"@, number_text(last_known_id))),
                None,
                Map::empty(),
                Decode::Json,
                "Received malformed JSON response body"@,
            ),
    {
        let query = Query::new().with("last_known_id", &Arg::OptionalScalar(int_scalar(last_known_id)));
        Call::get("log/peers", Some(query)).expecting(Decode::Json, "Received malformed JSON response body")
    }

    /// The changes since response `rid`, as JSON.
    pub fn sync(&self, rid: Option<i64>) -> (call: Call)
        ensures
            call.shaped(
                Method::Get,
                "sync/maindata"@,
                Some(extended(no_fields(), "rid"@, number_text(rid))),
                None,
                Map::empty(),
                Decode::Json,
                "Received malformed JSON response body"@,
            ),
    {
        let query = Query::new().with("rid", &Arg::OptionalScalar(int_scalar(rid)));
        Call::get("sync/maindata", Some(query)).expecting(Decode::Json, "Received malformed JSON response body")
    }

    /// The peers of a torrent since response `rid`, as JSON.
    pub fn get_torrent_peers(&self, hash: &str, rid: Option<i64>) -> (call: Call)
        ensures
            call.shaped(
                Method::Get,
                "sync/torrentPeers"@,
                Some(extended(extended(no_fields(), "hash"@, Some(hash@)), "rid"@, number_text(rid))),
                None,
                not_found_table(),
                Decode::Json,
                "Received malformed JSON response body"@,
            ),
    {
        let query = Query::new().with("hash", &Arg::Scalar(Scalar::Text(String::from_str(hash)))).with("rid", &Arg::OptionalScalar(int_scalar(rid)));
        Call::get("sync/torrentPeers", Some(query)).map_status(StatusOverrides::torrent_not_found()).expecting(Decode::Json, "Received malformed JSON response body")
    }

    /// The global transfer figures, as JSON.
    pub fn get_transfer_info(&self) -> (call: Call)
        ensures
            call.shaped(
                Method::Get,
                "transfer/info"@,
                None,
                None,
                Map::empty(),
                Decode::Json,
                "Received malformed JSON response body"@,
            ),
    {
        Call::get("transfer/info", None).expecting(Decode::Json, "Received malformed JSON response body")
    }

    /// Whether the alternative speed limits are on.
    pub fn get_speed_limits_mode(&self) -> (call: Call)
        ensures
            call.shaped(
                Method::Get,
                "transfer/speedLimitsMode"@,
                None,
                None,
                Map::empty(),
                Decode::Flag,
                "Received non-number response body on `transfer/speedLimitsMode`"@,
            ),
    {
        Call::get("transfer/speedLimitsMode", None).expecting(Decode::Flag, "Received non-number response body on `transfer/speedLimitsMode`")
    }

    /// Switches the alternative speed limits.
    pub fn toggle_speed_limits_mode(&self) -> (call: Call)
        ensures
            call.shaped(
                Method::Get,
                "transfer/toggleSpeedLimitsMode"@,
                None,
                None,
                Map::empty(),
                Decode::Discard,
                ""@,
            ),
    {
        Call::get("transfer/toggleSpeedLimitsMode", None)
    }

    /// The global download limit in bytes per second.
    pub fn get_download_limit(&self) -> (call: Call)
        ensures
            call.shaped(
                Method::Get,
                "transfer/downloadLimit"@,
                None,
                None,
                Map::empty(),
                Decode::Number,
                "Received non-number response body on `transfer/downloadLimit`"@,
            ),
    {
        Call::get("transfer/downloadLimit", None).expecting(Decode::Number, "Received non-number response body on `transfer/downloadLimit`")
    }

    /// Sets the global download limit in bytes per second.
    pub fn set_download_limit(&self, limit: u64) -> (call: Call)
        ensures
            call.shaped(
                Method::Get,
                "transfer/setDownloadLimit"@,
                Some(extended(no_fields(), "limit"@, Some(decimal(limit as nat)))),
                None,
                Map::empty(),
                Decode::Discard,
                ""@,
            ),
    {
        let query = Query::new().with("limit", &Arg::Scalar(Scalar::Unsigned(limit)));
        Call::get("transfer/setDownloadLimit", Some(query))
    }

    /// The global upload limit in bytes per second.
    pub fn get_upload_limit(&self) -> (call: Call)
        ensures
            call.shaped(
                Method::Get,
                "transfer/uploadLimit"@,
                None,
                None,
                Map::empty(),
                Decode::Number,
                "Received non-number response body on `transfer/uploadLimit`"@,
            ),
    {
        Call::get("transfer/uploadLimit", None).expecting(Decode::Number, "Received non-number response body on `transfer/uploadLimit`")
    }

    /// Sets the global upload limit in bytes per second.
    pub fn set_upload_limit(&self, limit: u64) -> (call: Call)
        ensures
            call.shaped(
                Method::Get,
                "transfer/setUploadLimit"@,
                Some(extended(no_fields(), "limit"@, Some(decimal(limit as nat)))),
                None,
                Map::empty(),
                Decode::Discard,
                ""@,
            ),
    {
        let query = Query::new().with("limit", &Arg::Scalar(Scalar::Unsigned(limit)));
        Call::get("transfer/setUploadLimit", Some(query))
    }

    /// Bans peers, each given as `host:port`.
    pub fn ban_peers(&self, peers: Vec<String>) -> (call: Call)
        ensures
            call.shaped(
                Method::Get,
                "transfer/banPeers"@,
                Some(extended(no_fields(), "peers"@, Some(joined(texts(peers@), Separator::Pipe.text())))),
                None,
                Map::empty(),
                Decode::Discard,
                ""@,
            ),
    {
        let query = Query::new().with("peers", &Arg::DelimitedList(peers, Separator::Pipe));
        Call::get("transfer/banPeers", Some(query))
    }

    /// The torrents that `arg`'s fields select, as JSON.
    pub fn get_torrent_list(&self, arg: Query) -> (call: Call)
        ensures
            call.shaped(
                Method::Get,
                "torrents/info"@,
                Some(arg@),
                None,
                Map::empty(),
                Decode::Json,
                "Received malformed JSON response body"@,
            ),
    {
        Call::get("torrents/info", Some(arg)).expecting(Decode::Json, "Received malformed JSON response body")
    }

    /// The properties of a torrent, as JSON.
    pub fn get_torrent_properties(&self, hash: &str) -> (call: Call)
        ensures
            call.shaped(
                Method::Get,
                "torrents/properties"@,
                Some(extended(no_fields(), "hash"@, Some(hash@))),
                None,
                not_found_table(),
                Decode::Json,
                "Received malformed JSON response body"@,
            ),
    {
        let query = Query::new().with("hash", &Arg::Scalar(Scalar::Text(String::from_str(hash))));
        Call::get("torrents/properties", Some(query)).map_status(StatusOverrides::torrent_not_found()).expecting(Decode::Json, "Received malformed JSON response body")
    }

    /// The trackers of a torrent, as JSON.
    pub fn get_torrent_trackers(&self, hash: &str) -> (call: Call)
        ensures
            call.shaped(
                Method::Get,
                "torrents/trackers"@,
                Some(extended(no_fields(), "hash"@, Some(hash@))),
                None,
                not_found_table(),
                Decode::Json,
                "Received malformed JSON response body"@,
            ),
    {
        let query = Query::new().with("hash", &Arg::Scalar(Scalar::Text(String::from_str(hash))));
        Call::get("torrents/trackers", Some(query)).map_status(StatusOverrides::torrent_not_found()).expecting(Decode::Json, "Received malformed JSON response body")
    }

    /// The web seeds of a torrent, as JSON.
    pub fn get_torrent_web_seeds(&self, hash: &str) -> (call: Call)
        ensures
            call.shaped(
                Method::Get,
                "torrents/webseeds"@,
                Some(extended(no_fields(), "hash"@, Some(hash@))),
                None,
                not_found_table(),
                Decode::Json,
                "Received malformed JSON response body"@,
            ),
    {
        let query = Query::new().with("hash", &Arg::Scalar(Scalar::Text(String::from_str(hash))));
        Call::get("torrents/webseeds", Some(query)).map_status(StatusOverrides::torrent_not_found()).expecting(Decode::Json, "Received malformed JSON response body")
    }

    /// The files of a torrent, or those at `indexes`, as JSON.
    pub fn get_torrent_contents(&self, hash: &str, indexes: Option<Vec<String>>) -> (call: Call)
        ensures
            call.shaped(
                Method::Get,
                "torrents/files"@,
                Some(extended(extended(no_fields(), "hash"@, Some(hash@)), "indexes"@, list_text(indexes, Separator::Pipe))),
                None,
                not_found_table(),
                Decode::Json,
                "Received malformed JSON response body"@,
            ),
    {
        let query = Query::new().with("hash", &Arg::Scalar(Scalar::Text(String::from_str(hash)))).with("indexes", &Arg::OptionalList(indexes, Separator::Pipe));
        Call::get("torrents/files", Some(query)).map_status(StatusOverrides::torrent_not_found()).expecting(Decode::Json, "Received malformed JSON response body")
    }

    /// The state of each piece of a torrent, as JSON.
    pub fn get_torrent_pieces_states(&self, hash: &str) -> (call: Call)
        ensures
            call.shaped(
                Method::Get,
                "torrents/pieceStates"@,
                Some(extended(no_fields(), "hash"@, Some(hash@))),
                None,
                not_found_table(),
                Decode::Json,
                "Received malformed JSON response body"@,
            ),
    {
        let query = Query::new().with("hash", &Arg::Scalar(Scalar::Text(String::from_str(hash))));
        Call::get("torrents/pieceStates", Some(query)).map_status(StatusOverrides::torrent_not_found()).expecting(Decode::Json, "Received malformed JSON response body")
    }

    /// The hash of each piece of a torrent, as JSON.
    pub fn get_torrent_pieces_hashes(&self, hash: &str) -> (call: Call)
        ensures
            call.shaped(
                Method::Get,
                "torrents/pieceHashes"@,
                Some(extended(no_fields(), "hash"@, Some(hash@))),
                None,
                not_found_table(),
                Decode::Json,
                "Received malformed JSON response body"@,
            ),
    {
        let query = Query::new().with("hash", &Arg::Scalar(Scalar::Text(String::from_str(hash))));
        Call::get("torrents/pieceHashes", Some(query)).map_status(StatusOverrides::torrent_not_found()).expecting(Decode::Json, "Received malformed JSON response body")
    }

    /// Pauses torrents.
    pub fn pause_torrents(&self, hashes: Hashes) -> (call: Call)
        ensures
            call.shaped(
                Method::Get,
                "torrents/pause"@,
                Some(extended(no_fields(), "hashes"@, Some(hashes.text()))),
                None,
                Map::empty(),
                Decode::Discard,
                ""@,
            ),
    {
        let query = Query::new().with("hashes", &Arg::HashSet(hashes));
        Call::get("torrents/pause", Some(query))
    }

    /// Resumes torrents.
    pub fn resume_torrents(&self, hashes: Hashes) -> (call: Call)
        ensures
            call.shaped(
                Method::Get,
                "torrents/resume"@,
                Some(extended(no_fields(), "hashes"@, Some(hashes.text()))),
                None,
                Map::empty(),
                Decode::Discard,
                ""@,
            ),
    {
        let query = Query::new().with("hashes", &Arg::HashSet(hashes));
        Call::get("torrents/resume", Some(query))
    }

    /// Deletes torrents, and their files where `delete_files` says so.
    pub fn delete_torrents(&self, hashes: Hashes, delete_files: Option<bool>) -> (call: Call)
        ensures
            call.shaped(
                Method::Get,
                "torrents/delete"@,
                Some(extended(extended(no_fields(), "hashes"@, Some(hashes.text())), "delete_files"@, optional_flag_text(delete_files))),
                None,
                Map::empty(),
                Decode::Discard,
                ""@,
            ),
    {
        let query = Query::new().with("hashes", &Arg::HashSet(hashes)).with("delete_files", &Arg::OptionalScalar(flag_scalar(delete_files)));
        Call::get("torrents/delete", Some(query))
    }

}

} // verus!
