use vstd::prelude::*;

use crate::parser::{ParsedUrl, UrlModel};

verus! {

/// The BLAKE3 digest of a text's UTF-8 bytes, in lowercase hexadecimal.
pub uninterp spec fn hex_digest_of(s: Seq<char>) -> Seq<char>;

/// A lowercase hexadecimal digit.
pub open spec fn is_lower_hex(c: char) -> bool {
    ('0' <= c && c <= '9') || ('a' <= c && c <= 'f')
}

/// Relies on `blake3::hash` and `Hash::to_hex`: 64 lowercase hexadecimal
/// digits that depend on the bytes alone.
#[verifier::external_body]
fn digest_hex(s: &str) -> (r: String)
    ensures
        r@ == hex_digest_of(s@),
        r@.len() == 64,
        forall|i: int| 0 <= i < r@.len() ==> is_lower_hex(#[trigger] r@[i]),
{
    blake3::hash(s.as_bytes()).to_hex().to_string()
}

/// An identifier's shape: 64 lowercase hexadecimal digits.
pub open spec fn is_identifier_text(s: Seq<char>) -> bool {
    &&& s.len() == 64
    &&& forall|i: int| 0 <= i < s.len() ==> is_lower_hex(#[trigger] s[i])
}

/// The identifier of a record for a URL: the hex digest of its serialization.
pub open spec fn identifier_of(url: Seq<char>) -> Seq<char> {
    hex_digest_of(url)
}

/// Computes the identifier of a URL's serialization.
pub fn url_identifier(url: &str) -> (r: String)
    ensures
        r@ == identifier_of(url@),
        is_identifier_text(r@),
{
    digest_hex(url)
}

/// The host to store for a URL: its host, or the sentinel when it has none.
pub open spec fn stored_host(host: Option<Seq<char>>) -> Seq<char> {
    match host {
        Some(h) => h,
        None => sentinel(),
    }
}

/// The sentinel stored in a text field for which nothing is known.
pub open spec fn sentinel() -> Seq<char> {
    seq!['-']
}

/// The flag of a record whose fetch has not failed.
pub open spec fn live_flag() -> Seq<char> {
    seq!['1']
}

/// The flag of a record whose fetch failed.
pub open spec fn dead_flag() -> Seq<char> {
    seq!['0']
}

/// The provenance tag of records created by the ingestion run.
pub open spec fn api_user() -> Seq<char> {
    seq!['a', 'p', 'i']
}

/// One ingested web resource, with all fields held as text.
pub struct Resource {
    pub uri_uuid: String,
    pub url: String,
    pub scheme: String,
    pub host: String,
    pub path: String,
    pub live_status: String,
    pub title: String,
    pub auto_descr: String,
    pub man_descr: String,
    pub crea_user: String,
    pub crea_time: String,
    pub modi_user: String,
    pub modi_time: String,
}

impl Resource {
    /// The blank record: sentinels for what is not yet known, live, no
    /// manual description, created by the api user.
    pub open spec fn is_blank(&self) -> bool {
        &&& self.uri_uuid@ == Seq::<char>::empty()
        &&& self.url@ == sentinel()
        &&& self.scheme@ == sentinel()
        &&& self.host@ == sentinel()
        &&& self.path@ == sentinel()
        &&& self.live_status@ == live_flag()
        &&& self.title@ == sentinel()
        &&& self.auto_descr@ == sentinel()
        &&& self.man_descr@ == Seq::<char>::empty()
        &&& self.crea_user@ == api_user()
        &&& self.crea_time@ == Seq::<char>::empty()
        &&& self.modi_user@ == api_user()
        &&& self.modi_time@ == Seq::<char>::empty()
    }

    /// A freshly built record for the URL `u` seen at `time`: not yet
    /// fetched, so live and with sentinel title and description.
    pub open spec fn is_new_record_for(&self, u: UrlModel, time: Seq<char>) -> bool {
        &&& self.uri_uuid@ == identifier_of(u.0)
        &&& is_identifier_text(self.uri_uuid@)
        &&& self.url@ == u.0
        &&& self.scheme@ == u.1
        &&& self.host@ == stored_host(u.2)
        &&& self.path@ == u.3
        &&& self.live_status@ == live_flag()
        &&& self.title@ == sentinel()
        &&& self.auto_descr@ == sentinel()
        &&& self.man_descr@ == Seq::<char>::empty()
        &&& self.crea_user@ == api_user()
        &&& self.crea_time@ == time
        &&& self.modi_user@ == api_user()
        &&& self.modi_time@ == time
    }

    /// The thirteen fields in the order in which a store keeps them.
    pub open spec fn row_spec(&self) -> Seq<Seq<char>> {
        seq![
            self.uri_uuid@,
            self.url@,
            self.scheme@,
            self.host@,
            self.path@,
            self.live_status@,
            self.title@,
            self.auto_descr@,
            self.man_descr@,
            self.crea_user@,
            self.crea_time@,
            self.modi_user@,
            self.modi_time@,
        ]
    }

    /// The fields as a row, in the fixed order `id, url, scheme, host, path,
    /// live_status, title, auto_descr, man_descr, crea_user, crea_time,
    /// modi_user, modi_time`.
    pub fn to_row(&self) -> (r: Vec<String>)
        ensures
            r@.map_values(|s: String| s@) == self.row_spec(),
    {
        let r = vec![
            self.uri_uuid.clone(),
            self.url.clone(),
            self.scheme.clone(),
            self.host.clone(),
            self.path.clone(),
            self.live_status.clone(),
            self.title.clone(),
            self.auto_descr.clone(),
            self.man_descr.clone(),
            self.crea_user.clone(),
            self.crea_time.clone(),
            self.modi_user.clone(),
            self.modi_time.clone(),
        ];
        assert(r@.map_values(|s: String| s@) =~= self.row_spec());
        r
    }
}

/// Builds the record for a parsed URL seen at `timestamp`, starting from
/// the blank record.
pub fn make_resource(url: &ParsedUrl, timestamp: &String) -> (r: Resource)
    ensures
        r.is_new_record_for(url@, timestamp@),
{
    let mut r = Resource::default();
    r.url = url.serialized.clone();
    r.uri_uuid = url_identifier(r.url.as_str());
    r.scheme = url.scheme.clone();
    r.host = match &url.host {
        Some(h) => h.clone(),
        None => sentinel_text(),
    };
    r.path = url.path.clone();
    r.crea_time = timestamp.clone();
    r.modi_time = timestamp.clone();
    r
}

/// The sentinel as an owned string.
pub fn sentinel_text() -> (r: String)
    ensures
        r@ == sentinel(),
{
    proof {
        reveal_strlit("-");
    }
    let r = String::from_str("-");
    assert(r@ =~= sentinel());
    r
}

impl Clone for Resource {
    fn clone(&self) -> (r: Self)
        ensures
            r.row_spec() == self.row_spec(),
    {
        Resource {
            uri_uuid: self.uri_uuid.clone(),
            url: self.url.clone(),
            scheme: self.scheme.clone(),
            host: self.host.clone(),
            path: self.path.clone(),
            live_status: self.live_status.clone(),
            title: self.title.clone(),
            auto_descr: self.auto_descr.clone(),
            man_descr: self.man_descr.clone(),
            crea_user: self.crea_user.clone(),
            crea_time: self.crea_time.clone(),
            modi_user: self.modi_user.clone(),
            modi_time: self.modi_time.clone(),
        }
    }
}

impl Default for Resource {
    fn default() -> (r: Self)
        ensures
            r.is_blank(),
    {
        proof {
            reveal_strlit("1");
            reveal_strlit("api");
        }
        let live = String::from_str("1");
        let crea_user = String::from_str("api");
        let modi_user = String::from_str("api");
        assert(live@ =~= live_flag());
        assert(crea_user@ =~= api_user());
        assert(modi_user@ =~= api_user());
        Resource {
            uri_uuid: String::new(),
            url: sentinel_text(),
            scheme: sentinel_text(),
            host: sentinel_text(),
            path: sentinel_text(),
            live_status: live,
            title: sentinel_text(),
            auto_descr: sentinel_text(),
            man_descr: String::new(),
            crea_user,
            crea_time: String::new(),
            modi_user,
            modi_time: String::new(),
        }
    }
}

} // verus!
