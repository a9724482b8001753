use vstd::prelude::*;

use crate::addr::IpAddress;
use crate::error::LocatError;
use crate::geo::code_view;
use crate::geo::country_of;
use crate::geo::open_reader;
use crate::geo::GeoDb;
use crate::store::bumped;
use crate::store::rows_match;
use crate::store::Db;

verus! {

/// Geo-locates IP addresses and keeps per-country request analytics: one
/// read-only country database, loaded once, beside one durable counter
/// store. Resolution and counting fail independently — a counter failure
/// never disturbs a resolution result.
pub struct Locat {
    reader: GeoDb,
    analytics: Db,
}

impl Locat {
    /// The loaded country database.
    pub closed spec fn geo(self) -> GeoDb {
        self.reader
    }

    /// The counter rows of the analytics store.
    pub closed spec fn table(self) -> Map<Seq<char>, nat> {
        self.analytics.table()
    }

    /// The path of the counter store's backing file.
    pub closed spec fn store_path(self) -> Seq<char> {
        self.analytics.path_view()
    }

    /// Loads the country database at `geoip_country_db_path` and attaches
    /// the counter store at `analytics_db_path`. Fails with a resolver
    /// error exactly when the database file cannot be opened or parsed; the
    /// counter file is only touched later, by the operations themselves.
    pub fn new(geoip_country_db_path: &str, analytics_db_path: &str) -> (r: Result<
        Locat,
        LocatError,
    >)
        ensures
            r matches Ok(l) ==> l.store_path() == analytics_db_path@,
            r matches Err(e) ==> e is ResolverInit,
    {
        match open_reader(geoip_country_db_path) {
            Ok(reader) => Ok(
                Locat { reader, analytics: Db::new(analytics_db_path.to_owned()) },
            ),
            Err(m) => Err(LocatError::ResolverInit(m)),
        }
    }

    /// Converts an address to an ISO 3166-1 alpha-2 country code and, when
    /// a non-empty code is found, bumps that country's counter as a best
    /// effort. The second component reports a failed bump; it never
    /// disturbs the first, and an unknown address changes no counter.
    pub fn ip_to_iso_code(&mut self, addr: &IpAddress) -> (r: (Option<String>, Option<LocatError>))
        ensures
            code_view(r.0) == country_of(old(self).geo(), addr.is_v4(), addr.bits()),
            final(self).geo() == old(self).geo(),
            r.0 is None ==> r.1 is None && final(self).table() == old(self).table(),
            r.0 matches Some(code) ==> (match r.1 {
                None => (if code@.len() > 0 {
                    final(self).table() == bumped(old(self).table(), code@)
                } else {
                    final(self).table() == old(self).table()
                }),
                Some(e) => e is StoreWrite && final(self).table() == old(self).table(),
            }),
    {
        match self.reader.resolve(addr) {
            Some(code) => {
                let note = if code.as_str().is_empty() {
                    None
                } else {
                    match self.analytics.increment(code.as_str()) {
                        Ok(()) => None,
                        Err(e) => Some(e),
                    }
                };
                (Some(code), note)
            },
            None => (None, None),
        }
    }

    /// Returns every (country code, request count) pair currently stored,
    /// in no guaranteed order: codes pairwise distinct, counts at least 1,
    /// exactly the stored rows.
    pub fn get_analytics(&self) -> (r: Result<Vec<(String, u64)>, LocatError>)
        ensures
            r matches Ok(rows) ==> rows_match(rows@, self.table()),
            r matches Err(e) ==> e is StoreRead,
    {
        self.analytics.list()
    }
}

} // verus!
