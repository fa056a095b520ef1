//! Status classification: which status codes fail a call, and with what.

use vstd::prelude::*;
use crate::error::{ApiError, Error};

verus! {

/// The mapping that a list of entries stands for: a later entry replaces an
/// earlier one for the same code.
pub open spec fn table_of(entries: Seq<(u16, ApiError)>) -> Map<u16, ApiError>
    decreases entries.len(),
{
    if entries.len() == 0 {
        Map::empty()
    } else {
        table_of(entries.drop_last()).insert(entries.last().0, entries.last().1)
    }
}

/// A per-call partial mapping from status code to a named failure, laid over
/// the defaults.
#[derive(Debug)]
pub struct StatusOverrides {
    entries: Vec<(u16, ApiError)>,
}

impl View for StatusOverrides {
    type V = Map<u16, ApiError>;

    closed spec fn view(&self) -> Map<u16, ApiError> {
        table_of(self.entries@)
    }
}

/// The table of the login call: 403 means a banned address.
pub open spec fn login_table() -> Map<u16, ApiError> {
    Map::<u16, ApiError>::empty().insert(403, ApiError::IpBanned)
}

/// The table of calls scoped to a content hash: 404 means an unknown torrent.
pub open spec fn not_found_table() -> Map<u16, ApiError> {
    Map::<u16, ApiError>::empty().insert(404, ApiError::TorrentNotFound)
}

impl StatusOverrides {
    /// The empty table.
    pub fn none() -> (r: StatusOverrides)
        ensures
            r@ == Map::<u16, ApiError>::empty(),
    {
        StatusOverrides { entries: Vec::new() }
    }

    /// This table with `code` mapped to `error`.
    pub fn with(self, code: u16, error: ApiError) -> (r: StatusOverrides)
        ensures
            r@ == self@.insert(code, error),
    {
        let mut entries = self.entries;
        entries.push((code, error));
        proof {
            assert(entries@.drop_last() =~= self.entries@);
        }
        StatusOverrides { entries }
    }

    /// The table of the login call: 403 means a banned address.
    pub fn login() -> (r: StatusOverrides)
        ensures
            r@ == login_table(),
    {
        StatusOverrides::none().with(403, ApiError::IpBanned)
    }

    /// The table of calls scoped to a content hash: 404 means an unknown torrent.
    pub fn torrent_not_found() -> (r: StatusOverrides)
        ensures
            r@ == not_found_table(),
    {
        StatusOverrides::none().with(404, ApiError::TorrentNotFound)
    }

    /// The failure that the table gives `code`, if it has one.
    pub fn get(&self, code: u16) -> (r: Option<ApiError>)
        ensures
            r == (if self@.contains_key(code) {
                Some(self@[code])
            } else {
                None
            }),
    {
        let mut i: usize = self.entries.len();
        proof {
            assert(self.entries@.take(i as int) =~= self.entries@);
        }
        while i > 0
            invariant
                i <= self.entries@.len(),
                self@.contains_key(code) == table_of(self.entries@.take(i as int)).contains_key(
                    code,
                ),
                self@.contains_key(code) ==> self@[code] == table_of(
                    self.entries@.take(i as int),
                )[code],
            decreases i,
        {
            proof {
                assert(self.entries@.take(i as int).drop_last() =~= self.entries@.take(i - 1));
            }
            i = i - 1;
            if self.entries[i].0 == code {
                return Some(self.entries[i].1);
            }
        }
        proof {
            assert(self.entries@.take(0).len() == 0);
        }
        None
    }
}

/// Whether a status code is in the 2xx range.
pub open spec fn is_success(code: u16) -> bool {
    200 <= code < 300
}

/// The failure that a status code stands for under a call's table: none for
/// 2xx; else what the table says; else "not logged in" for 403; else the raw
/// code as an unknown status.
pub open spec fn classified(code: u16, overrides: Map<u16, ApiError>) -> Option<Error> {
    if is_success(code) {
        None
    } else if overrides.contains_key(code) {
        Some(Error::ApiError(overrides[code]))
    } else if code == 403 {
        Some(Error::ApiError(ApiError::NotLoggedIn))
    } else {
        Some(Error::UnknownHttpCode(code))
    }
}

/// Classifies a status code under a call's table.
pub fn classify(code: u16, overrides: &StatusOverrides) -> (r: Option<Error>)
    ensures
        r == classified(code, overrides@),
{
    if 200 <= code && code < 300 {
        return None;
    }
    match overrides.get(code) {
        Some(error) => Some(Error::ApiError(error)),
        None => {
            if code == 403 {
                Some(Error::ApiError(ApiError::NotLoggedIn))
            } else {
                Some(Error::UnknownHttpCode(code))
            }
        },
    }
}

/// A 2xx status is never a failure, whatever the table holds.
pub proof fn lemma_success_never_fails(code: u16, overrides: Map<u16, ApiError>)
    requires
        is_success(code),
    ensures
        classified(code, overrides) is None,
{
}

/// Outside 2xx every status is a failure, and the table's entry wins over the
/// defaults.
pub proof fn lemma_override_wins(code: u16, overrides: Map<u16, ApiError>)
    requires
        !is_success(code),
    ensures
        classified(code, overrides) is Some,
        overrides.contains_key(code) ==> classified(code, overrides) == Some(
            Error::ApiError(overrides[code]),
        ),
{
}

} // verus!
