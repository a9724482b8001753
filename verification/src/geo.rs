use vstd::prelude::*;

use crate::addr::IpAddress;

verus! {

/// A read-only country database, loaded into memory once at construction
/// and never mutated afterwards. The struct is opaque: it holds maxminddb's
/// reader, which only the trusted calls below touch.
#[verifier::external_body]
pub struct GeoDb {
    reader: maxminddb::Reader<Vec<u8>>,
}

/// The country code the loaded database assigns to an address, or nothing
/// where it assigns none. A lookup reads only the immutable in-memory
/// database, so its outcome is a function of the database and the address
/// alone; nothing more is stated of it.
pub uninterp spec fn country_of(db: GeoDb, v4: bool, bits: u128) -> Option<Seq<char>>;

/// The character view of an optional owned code, for speaking about lookup
/// results.
pub open spec fn code_view(r: Option<String>) -> Option<Seq<char>> {
    match r {
        Some(s) => Some(s@),
        None => None,
    }
}

/// Relies on maxminddb's `Reader::open_readfile`: reads the file at `path`
/// into memory and parses it as a country database. Which database comes
/// back depends on the disk, so nothing is stated of the value; a missing
/// or malformed file gives the crate's error, returned as its description.
#[verifier::external_body]
pub(crate) fn open_reader(path: &str) -> (r: Result<GeoDb, String>) {
    match maxminddb::Reader::open_readfile(path) {
        Ok(reader) => Ok(GeoDb { reader }),
        Err(e) => Err(format!("{e}")),
    }
}

/// Relies on maxminddb's `Reader::lookup` and `LookupResult::decode` with
/// the `geoip2::Country` record: returns the database's country code for
/// the address, or nothing when the database has no country entry for it —
/// a lookup error, an absent record and an absent code are all the same
/// "unknown" outcome. The buffer is immutable, so the result is
/// `country_of` of the database and the address.
#[verifier::external_body]
fn lookup_iso(db: &GeoDb, v4: bool, bits: u128) -> (r: Option<String>)
    ensures
        code_view(r) == country_of(*db, v4, bits),
{
    let ip = if v4 {
        core::net::IpAddr::V4(core::net::Ipv4Addr::from(bits as u32))
    } else {
        core::net::IpAddr::V6(core::net::Ipv6Addr::from(bits))
    };
    let record = match db.reader.lookup(ip) {
        Ok(res) => res.decode::<maxminddb::geoip2::Country>().ok().flatten(),
        Err(_) => None,
    };
    record.and_then(|c| c.country.iso_code).map(|s| s.to_owned())
}

impl GeoDb {
    /// Looks `addr` up in the loaded database and returns its country code,
    /// if the database assigns one. Pure: the database never changes after
    /// construction.
    pub fn resolve(&self, addr: &IpAddress) -> (r: Option<String>)
        ensures
            code_view(r) == country_of(*self, addr.is_v4(), addr.bits()),
    {
        match addr {
            IpAddress::V4(b) => lookup_iso(self, true, *b as u128),
            IpAddress::V6(b) => lookup_iso(self, false, *b),
        }
    }
}

/// Resolution is deterministic: with one loaded database, two results for
/// the same address agree.
pub proof fn lemma_resolve_deterministic(
    db: GeoDb,
    addr: IpAddress,
    r1: Option<Seq<char>>,
    r2: Option<Seq<char>>,
)
    requires
        r1 == country_of(db, addr.is_v4(), addr.bits()),
        r2 == country_of(db, addr.is_v4(), addr.bits()),
    ensures
        r1 == r2,
{
}

} // verus!
