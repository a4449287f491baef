//! Client-side request construction for the two signed endpoints: path
//! assembly, query encoding, and signing, composed into a ready-to-send URL.
//! Issuing the network call itself is a transport concern outside this
//! library.

use vstd::prelude::*;
use vstd::utf8::encode_utf8;
use crate::dec::dec_int_chars;
use crate::dec::dec_i64_chars;
use crate::hex::is_upper_hex_char;
use crate::ids::Stop;
use crate::modes::RouteType;
use crate::modes::spec_code;
use crate::pct::pct;
use crate::pct::percent_encode_bytes;
use crate::query::DeparturesParams;
use crate::query::QueryParam;
use crate::query::encode_query;
use crate::query::spec_departures_query;
use crate::query::spec_encode_query;
use crate::sign::SignedUrl;
use crate::sign::sign;
use crate::sign::spec_signature_hex;
use crate::sign::spec_signed_query;
use crate::strutil::bytes_to_chars;
use crate::strutil::chars_of_bytes;
use crate::strutil::chars_to_string;
use crate::strutil::push_chars;
use crate::strutil::push_str_chars;
use vstd::string::StrSliceExecFns;

verus! {

/// The developer id and shared secret the remote service issued to the
/// caller. Immutable once constructed; never logged or echoed by this
/// library.
#[derive(Clone, Debug)]
pub struct Credentials {
    /// Developer identifier, sent as the `devid` query parameter
    pub devid: String,
    /// Shared secret that keys the request signature
    pub key: String,
}

impl Credentials {
    /// Bundle a developer id and key.
    pub fn new(devid: String, key: String) -> (c: Credentials)
        ensures
            c.devid == devid,
            c.key == key,
    {
        Credentials { devid, key }
    }
}

/// The origin the timetable service is reached at.
pub fn base_url() -> (s: &'static str)
    ensures
        s@ == "https://timetableapi.ptv.vic.gov.au"@,
{
    "https://timetableapi.ptv.vic.gov.au"
}

/// The departures endpoint path for a mode-qualified stop.
pub open spec fn spec_departures_path(m: RouteType, id: int) -> Seq<char> {
    "/v3/departures/route_type/"@ + dec_int_chars(spec_code(m) as int) + "/stop/"@ + dec_int_chars(
        id,
    )
}

/// Build the departures endpoint path for a stop.
pub fn departures_path(stop: &Stop) -> (p: String)
    ensures
        p@ == spec_departures_path(stop.route_type, stop.id.0 as int),
{
    let mut v: Vec<char> = Vec::new();
    push_str_chars(&mut v, "/v3/departures/route_type/");
    let code = dec_i64_chars(stop.route_type.value() as i64);
    push_chars(&mut v, &code);
    push_str_chars(&mut v, "/stop/");
    let id = dec_i64_chars(stop.id.0 as i64);
    push_chars(&mut v, &id);
    assert(v@ =~= spec_departures_path(stop.route_type, stop.id.0 as int));
    chars_to_string(&v)
}

/// The search endpoint path for a free-text term: the term is
/// percent-encoded twice before it is placed into the path.
pub open spec fn spec_search_path(term: Seq<char>) -> Seq<char> {
    "/v3/search/"@ + chars_of_bytes(pct(pct(encode_utf8(term))))
}

/// Build the search endpoint path for a free-text term.
///
/// The term is percent-encoded and the result percent-encoded again: the
/// remote service's signature validation rejects a singly-encoded term, so
/// the double encoding is applied deliberately and only here, not to query
/// parameters in general.
pub fn search_path(term: &str) -> (p: String)
    ensures
        p@ == spec_search_path(term@),
{
    let term_bytes = term.as_bytes_vec();
    let once = percent_encode_bytes(&term_bytes);
    let twice = percent_encode_bytes(&once);
    let mut v: Vec<char> = Vec::new();
    push_str_chars(&mut v, "/v3/search/");
    let enc = bytes_to_chars(&twice);
    push_chars(&mut v, &enc);
    assert(v@ =~= spec_search_path(term@));
    chars_to_string(&v)
}

/// Build the fully signed departures request URL for a stop: encode the
/// parameters, then sign the path and query under the caller's credentials.
pub fn departures_request(
    base: &str,
    stop: &Stop,
    params: &DeparturesParams,
    creds: &Credentials,
) -> (u: SignedUrl)
    ensures
        u.base@ == base@,
        u.path@ == spec_departures_path(stop.route_type, stop.id.0 as int),
        u.query@ == spec_signed_query(
            spec_departures_path(stop.route_type, stop.id.0 as int),
            spec_departures_query(*params),
            creds.devid@,
            creds.key@,
        ),
        spec_signature_hex(
            creds.key@,
            spec_departures_path(stop.route_type, stop.id.0 as int),
            spec_departures_query(*params),
        ).len() == 40,
        forall|i: int| 0 <= i < 40 ==> is_upper_hex_char(
            #[trigger] chars_of_bytes(
                spec_signature_hex(
                    creds.key@,
                    spec_departures_path(stop.route_type, stop.id.0 as int),
                    spec_departures_query(*params),
                ),
            )[i],
        ),
{
    let path = departures_path(stop);
    let query = params.to_query_string();
    sign(base, path.as_str(), query.as_str(), creds.devid.as_str(), creds.key.as_str())
}

/// Build the fully signed search request URL for a term and extra
/// parameters: the term goes into the path (doubly encoded), the parameters
/// into the query, and both are covered by the signature.
pub fn search_request(
    base: &str,
    term: &str,
    params: &Vec<QueryParam>,
    creds: &Credentials,
) -> (u: SignedUrl)
    ensures
        u.base@ == base@,
        u.path@ == spec_search_path(term@),
        u.query@ == spec_signed_query(
            spec_search_path(term@),
            spec_encode_query(params@),
            creds.devid@,
            creds.key@,
        ),
        spec_signature_hex(creds.key@, spec_search_path(term@), spec_encode_query(params@)).len()
            == 40,
        forall|i: int| 0 <= i < 40 ==> is_upper_hex_char(
            #[trigger] chars_of_bytes(
                spec_signature_hex(creds.key@, spec_search_path(term@), spec_encode_query(params@)),
            )[i],
        ),
{
    let path = search_path(term);
    let query = encode_query(params);
    sign(base, path.as_str(), query.as_str(), creds.devid.as_str(), creds.key.as_str())
}

/// The signature hex of any request is 40 upper-case hexadecimal
/// characters, and the signed query puts `devid` then `signature` last, in
/// that order, with nothing after the signature.
pub proof fn lemma_signed_query_shape(
    path: Seq<char>,
    query: Seq<char>,
    devid: Seq<char>,
    key: Seq<char>,
)
    requires
        spec_signature_hex(key, path, query).len() == 40,
    ensures
        spec_signed_query(path, query, devid, key) == query + (if query.len() == 0 {
            Seq::<char>::empty()
        } else {
            seq!['&']
        }) + "devid="@ + chars_of_bytes(pct(encode_utf8(devid))) + "&signature="@
            + chars_of_bytes(spec_signature_hex(key, path, query)),
        chars_of_bytes(spec_signature_hex(key, path, query)).len() == 40,
{
}

} // verus!
